//! The entities that a node and the resolver keep, each with its
//! mathematical view.

use vstd::prelude::*;

verus! {

/// The address that a node reports for every instance it runs.
pub open spec fn instance_address() -> Seq<char> {
    "192.168.0.1"@
}

/// Compute resources: an amount asked for, owned or on offer.
#[derive(Clone, Copy, Debug, PartialEq, Eq, Structural)]
pub struct Resources {
    pub ram_mb: u32,
    pub disk_mb: u32,
    pub vcpus: u32,
}

/// What a node knows of a file in its storage.
#[derive(Debug, PartialEq, Eq)]
pub struct FileMetadata {
    /// Where the file lies; the key of the record.
    pub file_path: String,
    /// The declared size of the file in bytes.
    pub file_size: u64,
    pub version: u64,
}

/// The mathematical content of a [`FileMetadata`].
pub struct FileMetadataView {
    pub file_path: Seq<char>,
    pub file_size: nat,
    pub version: nat,
}

impl View for FileMetadata {
    type V = FileMetadataView;

    open spec fn view(&self) -> FileMetadataView {
        FileMetadataView {
            file_path: self.file_path@,
            file_size: self.file_size as nat,
            version: self.version as nat,
        }
    }
}

impl DeepView for FileMetadata {
    type V = FileMetadataView;

    open spec fn deep_view(&self) -> FileMetadataView {
        self@
    }
}

impl Clone for FileMetadata {
    fn clone(&self) -> (copy: FileMetadata)
        ensures
            copy@ == self@,
    {
        FileMetadata {
            file_path: self.file_path.clone(),
            file_size: self.file_size,
            version: self.version,
        }
    }
}

/// An operating-system image: an identifier and the file that holds it.
#[derive(Debug, PartialEq, Eq)]
pub struct OsImageMetadata {
    pub image_id: String,
    pub file_metadata: FileMetadata,
}

/// The mathematical content of an [`OsImageMetadata`].
pub struct OsImageMetadataView {
    pub image_id: Seq<char>,
    pub file_metadata: FileMetadataView,
}

impl View for OsImageMetadata {
    type V = OsImageMetadataView;

    open spec fn view(&self) -> OsImageMetadataView {
        OsImageMetadataView { image_id: self.image_id@, file_metadata: self.file_metadata@ }
    }
}

impl DeepView for OsImageMetadata {
    type V = OsImageMetadataView;

    open spec fn deep_view(&self) -> OsImageMetadataView {
        self@
    }
}

impl Clone for OsImageMetadata {
    fn clone(&self) -> (copy: OsImageMetadata)
        ensures
            copy@ == self@,
    {
        OsImageMetadata {
            image_id: self.image_id.clone(),
            file_metadata: self.file_metadata.clone(),
        }
    }
}

/// A template from which instances are provisioned: resources and an image.
#[derive(Debug, PartialEq, Eq)]
pub struct Machine {
    pub machine_id: String,
    pub resources: Resources,
    pub image_metadata: OsImageMetadata,
}

/// The mathematical content of a [`Machine`].
pub struct MachineView {
    pub machine_id: Seq<char>,
    pub resources: Resources,
    pub image_metadata: OsImageMetadataView,
}

impl View for Machine {
    type V = MachineView;

    open spec fn view(&self) -> MachineView {
        MachineView {
            machine_id: self.machine_id@,
            resources: self.resources,
            image_metadata: self.image_metadata@,
        }
    }
}

impl DeepView for Machine {
    type V = MachineView;

    open spec fn deep_view(&self) -> MachineView {
        self@
    }
}

impl Clone for Machine {
    fn clone(&self) -> (copy: Machine)
        ensures
            copy@ == self@,
    {
        Machine {
            machine_id: self.machine_id.clone(),
            resources: self.resources,
            image_metadata: self.image_metadata.clone(),
        }
    }
}

/// Whether an instance runs.
#[derive(Clone, Copy, Debug, PartialEq, Eq, Structural)]
pub enum InstanceState {
    Started,
    Stopped,
}

/// The number by which the operating system knows a launched process.
pub type ProcessId = u32;

/// A virtual machine made from a [`Machine`], running or stopped.
#[derive(Debug, PartialEq, Eq)]
pub struct Instance {
    pub instance_id: String,
    /// The process that was launched for the instance last.
    pub process_id: ProcessId,
    pub ip_address: String,
    pub machine: Machine,
    pub state: InstanceState,
}

/// The mathematical content of an [`Instance`].
pub struct InstanceView {
    pub instance_id: Seq<char>,
    pub process_id: ProcessId,
    pub ip_address: Seq<char>,
    pub machine: MachineView,
    pub state: InstanceState,
}

impl View for Instance {
    type V = InstanceView;

    open spec fn view(&self) -> InstanceView {
        InstanceView {
            instance_id: self.instance_id@,
            process_id: self.process_id,
            ip_address: self.ip_address@,
            machine: self.machine@,
            state: self.state,
        }
    }
}

impl DeepView for Instance {
    type V = InstanceView;

    open spec fn deep_view(&self) -> InstanceView {
        self@
    }
}

impl Clone for Instance {
    fn clone(&self) -> (copy: Instance)
        ensures
            copy@ == self@,
    {
        Instance {
            instance_id: self.instance_id.clone(),
            process_id: self.process_id,
            ip_address: self.ip_address.clone(),
            machine: self.machine.clone(),
            state: self.state,
        }
    }
}

/// A node as the resolver knows it: the host under which it is reached.
#[derive(Debug, PartialEq, Eq)]
pub struct DataCenter {
    pub host_name: String,
}

impl View for DataCenter {
    type V = Seq<char>;

    open spec fn view(&self) -> Seq<char> {
        self.host_name@
    }
}

impl DeepView for DataCenter {
    type V = Seq<char>;

    open spec fn deep_view(&self) -> Seq<char> {
        self@
    }
}

impl Clone for DataCenter {
    fn clone(&self) -> (copy: DataCenter)
        ensures
            copy@ == self@,
    {
        DataCenter { host_name: self.host_name.clone() }
    }
}

} // verus!
