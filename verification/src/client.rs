//! What the client of a data center node does for a command.

use vstd::prelude::*;
use crate::cli::data_center::{
    Commands, ComputeArguments, ComputeCommands, InstanceArguments, InstanceCommands,
    MachineArguments, MachineCommands, OperatingSystemArguments, OperatingSystemCommands,
    StorageArguments, StorageCommands, UpArguments, UpCommands,
};
use crate::model::Resources;

verus! {

/// What a command asks of a node.
#[allow(inconsistent_fields)]
#[derive(Debug, PartialEq, Eq)]
pub enum Operation {
    ProvisionInstance { machine_id: String },
    StopInstance { instance_id: String },
    StartInstance { instance_id: String },
    ListInstances,
    CreateMachine { image_id: String, resources: Resources },
    ListMachines,
    /// Upload a local image, make a machine from it and provision an
    /// instance of the machine.
    UpLocalImage { resources: Resources, local_path: String, storage_path: String },
    UploadFile { local_file_path: String, storage_file_path: String },
    DownloadFile { storage_path: String, local_path: String },
    /// Upload the file of an image: of the image `image_id` where one is
    /// named, and else of a new image.
    UploadImage {
        image_id: Option<String>,
        source_image_path: String,
        destination_image_path: String,
    },
    DownloadImage { image_id: String, destination_path: String },
    GetImageMetadata { image_id: String },
    ListImageMetadata,
}

/// The mathematical content of an [`Operation`].
#[allow(inconsistent_fields)]
pub enum OperationView {
    ProvisionInstance { machine_id: Seq<char> },
    StopInstance { instance_id: Seq<char> },
    StartInstance { instance_id: Seq<char> },
    ListInstances,
    CreateMachine { image_id: Seq<char>, resources: Resources },
    ListMachines,
    UpLocalImage { resources: Resources, local_path: Seq<char>, storage_path: Seq<char> },
    UploadFile { local_file_path: Seq<char>, storage_file_path: Seq<char> },
    DownloadFile { storage_path: Seq<char>, local_path: Seq<char> },
    UploadImage {
        image_id: Option<Seq<char>>,
        source_image_path: Seq<char>,
        destination_image_path: Seq<char>,
    },
    DownloadImage { image_id: Seq<char>, destination_path: Seq<char> },
    GetImageMetadata { image_id: Seq<char> },
    ListImageMetadata,
}

impl View for Operation {
    type V = OperationView;

    open spec fn view(&self) -> OperationView {
        match self {
            Operation::ProvisionInstance { machine_id } => OperationView::ProvisionInstance {
                machine_id: machine_id@,
            },
            Operation::StopInstance { instance_id } => OperationView::StopInstance {
                instance_id: instance_id@,
            },
            Operation::StartInstance { instance_id } => OperationView::StartInstance {
                instance_id: instance_id@,
            },
            Operation::ListInstances => OperationView::ListInstances,
            Operation::CreateMachine { image_id, resources } => OperationView::CreateMachine {
                image_id: image_id@,
                resources: *resources,
            },
            Operation::ListMachines => OperationView::ListMachines,
            Operation::UpLocalImage {
                resources,
                local_path,
                storage_path,
            } => OperationView::UpLocalImage {
                resources: *resources,
                local_path: local_path@,
                storage_path: storage_path@,
            },
            Operation::UploadFile {
                local_file_path,
                storage_file_path,
            } => OperationView::UploadFile {
                local_file_path: local_file_path@,
                storage_file_path: storage_file_path@,
            },
            Operation::DownloadFile { storage_path, local_path } => OperationView::DownloadFile {
                storage_path: storage_path@,
                local_path: local_path@,
            },
            Operation::UploadImage {
                image_id,
                source_image_path,
                destination_image_path,
            } => OperationView::UploadImage {
                image_id: match image_id {
                    Some(id) => Some(id@),
                    None => None,
                },
                source_image_path: source_image_path@,
                destination_image_path: destination_image_path@,
            },
            Operation::DownloadImage {
                image_id,
                destination_path,
            } => OperationView::DownloadImage {
                image_id: image_id@,
                destination_path: destination_path@,
            },
            Operation::GetImageMetadata { image_id } => OperationView::GetImageMetadata {
                image_id: image_id@,
            },
            Operation::ListImageMetadata => OperationView::ListImageMetadata,
        }
    }
}

/// What an `instance` command asks for.
pub open spec fn instance_operation(arguments: InstanceArguments) -> OperationView {
    match arguments.instance {
        InstanceCommands::ProvisionInstance(a) => OperationView::ProvisionInstance {
            machine_id: a.machine_id@,
        },
        InstanceCommands::StopInstance(a) => OperationView::StopInstance {
            instance_id: a.instance_id@,
        },
        InstanceCommands::StartInstance(a) => OperationView::StartInstance {
            instance_id: a.instance_id@,
        },
        InstanceCommands::ListInstances => OperationView::ListInstances,
    }
}

/// What a `machine` command asks for.
pub open spec fn machine_operation(arguments: MachineArguments) -> OperationView {
    match arguments.machine {
        MachineCommands::CreateMachine(a) => OperationView::CreateMachine {
            image_id: a.image_id@,
            resources: Resources { ram_mb: a.ram_mb, disk_mb: a.disk_mb, vcpus: a.vcpus },
        },
        MachineCommands::ListMachines => OperationView::ListMachines,
    }
}

/// What `up` asks for.
pub open spec fn up_operation(arguments: UpArguments) -> OperationView {
    match arguments.up {
        UpCommands::LocalImage(a) => OperationView::UpLocalImage {
            resources: Resources {
                ram_mb: arguments.ram_mb,
                disk_mb: arguments.disk_mb,
                vcpus: arguments.vcpus,
            },
            local_path: a.local_path@,
            storage_path: a.storage_path@,
        },
    }
}

/// What a `compute` command asks for.
pub open spec fn compute_operation(arguments: ComputeArguments) -> OperationView {
    match arguments.compute {
        ComputeCommands::Up(a) => up_operation(a),
    }
}

/// What a `storage` command asks for.
pub open spec fn storage_operation(arguments: StorageArguments) -> OperationView {
    match arguments.storage {
        StorageCommands::UploadFile(a) => OperationView::UploadFile {
            local_file_path: a.local_file_path@,
            storage_file_path: a.storage_file_path@,
        },
        StorageCommands::DownloadFile(a) => OperationView::DownloadFile {
            storage_path: a.storage_path@,
            local_path: a.local_path@,
        },
    }
}

/// What an `os` command asks for.
pub open spec fn image_operation(arguments: OperatingSystemArguments) -> OperationView {
    match arguments.os {
        OperatingSystemCommands::UploadImage(a) => OperationView::UploadImage {
            image_id: match a.image_id {
                Some(id) => Some(id@),
                None => None,
            },
            source_image_path: a.source_image_path@,
            destination_image_path: a.destination_image_path@,
        },
        OperatingSystemCommands::DownloadImage(a) => OperationView::DownloadImage {
            image_id: a.image_id@,
            destination_path: a.destination_path@,
        },
        OperatingSystemCommands::GetImageMetadata(a) => OperationView::GetImageMetadata {
            image_id: a.image_id@,
        },
        OperatingSystemCommands::ListImageMetadata => OperationView::ListImageMetadata,
    }
}

/// What a command asks for.
pub open spec fn operation_of(command: Commands) -> OperationView {
    match command {
        Commands::Instance(a) => instance_operation(a),
        Commands::Machine(a) => machine_operation(a),
        Commands::Compute(a) => compute_operation(a),
        Commands::Storage(a) => storage_operation(a),
        Commands::Os(a) => image_operation(a),
    }
}

/// The operation that an `instance` command asks for.
pub fn handle_instance_command(arguments: InstanceArguments) -> (operation: Operation)
    ensures
        operation@ == instance_operation(arguments),
{
    match arguments.instance {
        InstanceCommands::StopInstance(a) => Operation::StopInstance {
            instance_id: a.instance_id,
        },
        InstanceCommands::StartInstance(a) => Operation::StartInstance {
            instance_id: a.instance_id,
        },
        InstanceCommands::ProvisionInstance(a) => Operation::ProvisionInstance {
            machine_id: a.machine_id,
        },
        InstanceCommands::ListInstances => Operation::ListInstances,
    }
}

/// The operation that a `machine` command asks for.
pub fn handle_machine_command(arguments: MachineArguments) -> (operation: Operation)
    ensures
        operation@ == machine_operation(arguments),
{
    match arguments.machine {
        MachineCommands::CreateMachine(a) => Operation::CreateMachine {
            image_id: a.image_id,
            resources: Resources { ram_mb: a.ram_mb, disk_mb: a.disk_mb, vcpus: a.vcpus },
        },
        MachineCommands::ListMachines => Operation::ListMachines,
    }
}

/// The operation that `up` asks for.
pub fn handle_up(arguments: UpArguments) -> (operation: Operation)
    ensures
        operation@ == up_operation(arguments),
{
    let resources = Resources {
        ram_mb: arguments.ram_mb,
        disk_mb: arguments.disk_mb,
        vcpus: arguments.vcpus,
    };
    match arguments.up {
        UpCommands::LocalImage(a) => Operation::UpLocalImage {
            resources,
            local_path: a.local_path,
            storage_path: a.storage_path,
        },
    }
}

/// The operation that a `compute` command asks for.
pub fn handle_compute_command(arguments: ComputeArguments) -> (operation: Operation)
    ensures
        operation@ == compute_operation(arguments),
{
    match arguments.compute {
        ComputeCommands::Up(a) => handle_up(a),
    }
}

/// The operation that a `storage` command asks for.
pub fn handle_storage_command(arguments: StorageArguments) -> (operation: Operation)
    ensures
        operation@ == storage_operation(arguments),
{
    match arguments.storage {
        StorageCommands::UploadFile(a) => Operation::UploadFile {
            local_file_path: a.local_file_path,
            storage_file_path: a.storage_file_path,
        },
        StorageCommands::DownloadFile(a) => Operation::DownloadFile {
            storage_path: a.storage_path,
            local_path: a.local_path,
        },
    }
}

/// The operation that an `os` command asks for.
pub fn handle_image_command(arguments: OperatingSystemArguments) -> (operation: Operation)
    ensures
        operation@ == image_operation(arguments),
{
    match arguments.os {
        OperatingSystemCommands::UploadImage(a) => Operation::UploadImage {
            image_id: a.image_id,
            source_image_path: a.source_image_path,
            destination_image_path: a.destination_image_path,
        },
        OperatingSystemCommands::DownloadImage(a) => Operation::DownloadImage {
            image_id: a.image_id,
            destination_path: a.destination_path,
        },
        OperatingSystemCommands::ListImageMetadata => Operation::ListImageMetadata,
        OperatingSystemCommands::GetImageMetadata(a) => Operation::GetImageMetadata {
            image_id: a.image_id,
        },
    }
}

/// The operation that a command asks for.
pub fn handle_command(command: Commands) -> (operation: Operation)
    ensures
        operation@ == operation_of(command),
{
    match command {
        Commands::Instance(arguments) => handle_instance_command(arguments),
        Commands::Machine(arguments) => handle_machine_command(arguments),
        Commands::Compute(arguments) => handle_compute_command(arguments),
        Commands::Storage(arguments) => handle_storage_command(arguments),
        Commands::Os(arguments) => handle_image_command(arguments),
    }
}

} // verus!
