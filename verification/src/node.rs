//! A data center node.
//!
//! [`LocalDataCenter`] keeps the metadata of files, images, machines and
//! instances and the process of each started instance. What a request
//! does to it is said over its view, a [`NodeView`], by the state machine
//! [`apply`].
//!
//! The node launches no process and touches no file. Where a request
//! needs a process launched or terminated, the caller does so: it asks
//! the node for the [`LaunchRequest`], launches, and reports the process
//! to the node, which then records the outcome. An upload hands the
//! caller the file to store, and a download takes from the caller the
//! content that lies in storage.

use vstd::prelude::*;
use vstd::string::*;
use crate::error::{Entity, Error};
use crate::ident::{fresh_from, is_id, lemma_fresh_from, random_id};
use crate::launcher::{launch_of, launch_request, LaunchRequest};
use crate::model::{
    FileMetadata, Instance, InstanceState, Machine, OsImageMetadata, ProcessId, Resources,
};
use crate::node_state::{apply, file_record, NodeOp, NodeView};
use crate::table::Table;
use crate::transfer::{
    accept_chunk, accept_chunks, assemble, chunk_count, fresh_assembly, law_round_trip,
    lemma_chunk_count_bounds, lemma_refusal_is_final, split, split_chunks, upload_requests,
    Assembler, Assembly, Chunk, ChunkView, UploadFileRequest, UploadFileRequestView,
    DOWNLOAD_BLOCK,
};

verus! {

/// The outcome of starting an instance anew.
#[derive(Debug, PartialEq, Eq)]
pub struct Restart {
    /// The instance as the node now records it.
    pub instance: Instance,
    /// The process that the instance had before and that the node has
    /// forgotten. The node does not terminate it: the caller decides what
    /// becomes of it.
    pub replaced: Option<ProcessId>,
}

/// A file that an upload has delivered whole.
#[derive(Debug, PartialEq, Eq)]
pub struct UploadedFile {
    /// Where the file is to be written.
    pub file_path: String,
    pub contents: Vec<u8>,
    /// The size of the file in bytes.
    pub bytes_written: u64,
}

/// The chunks that the messages of an upload carry.
pub open spec fn chunks_of(messages: Seq<UploadFileRequestView>) -> Seq<ChunkView> {
    Seq::new(messages.len(), |i: int| messages[i].chunk)
}

/// What an upload with the messages `messages` delivers to node `s`: the
/// path of the first message names the file, and the chunks of all
/// messages make up its content.
///
/// The upload is refused with `InvalidState` where there is no message,
/// where nothing is declared at the path of the first one, or where the
/// declared size is beyond `limit`, the largest size that the machine
/// addresses; and with `ProtocolViolation` where the chunks are not a
/// well-formed transfer of the declared size.
pub open spec fn upload_outcome(
    s: NodeView,
    messages: Seq<UploadFileRequestView>,
    limit: nat,
) -> Result<(Seq<char>, Seq<u8>), Error> {
    if messages.len() == 0 {
        Err(Error::InvalidState)
    } else if !s.files.contains(messages[0].file_path) {
        Err(Error::InvalidState)
    } else if s.files.map[messages[0].file_path].file_size > limit {
        Err(Error::InvalidState)
    } else {
        match assemble(s.files.map[messages[0].file_path].file_size, chunks_of(messages)) {
            Some(contents) => Ok((messages[0].file_path, contents)),
            None => Err(Error::ProtocolViolation),
        }
    }
}

/// What a download of the file at `path` with the content `contents`
/// delivers from node `s`: the first bytes of the content, as many as are
/// declared, cut into blocks of [`DOWNLOAD_BLOCK`] bytes.
///
/// The download is refused with `InvalidState` where nothing is declared
/// at `path`, and with `IoFailure` where the content is shorter than
/// declared.
pub open spec fn download_outcome(s: NodeView, path: Seq<char>, contents: Seq<u8>) -> Result<
    Seq<ChunkView>,
    Error,
> {
    if !s.files.contains(path) {
        Err(Error::InvalidState)
    } else if contents.len() < s.files.map[path].file_size {
        Err(Error::IoFailure)
    } else {
        Ok(split(contents.take(s.files.map[path].file_size as int), DOWNLOAD_BLOCK as nat))
    }
}

/// The mathematical content of an [`Upload`]: nothing before the first
/// message, and after it the path that the file goes to and the state of
/// its reassembly.
pub struct UploadView {
    pub target: Option<(Seq<char>, Assembly)>,
}

/// The upload `u` after the message `m` has arrived at node `s`.
///
/// The first message names the file: the upload is refused with
/// `InvalidState` where nothing is declared at its path or where the
/// declared size is beyond `limit`. The chunk of every message has to
/// continue the transfer: the upload is refused with `ProtocolViolation`
/// where it does not.
pub open spec fn receive(u: UploadView, s: NodeView, m: UploadFileRequestView, limit: nat) -> Result<
    UploadView,
    Error,
> {
    match u.target {
        None => if !s.files.contains(m.file_path) || s.files.map[m.file_path].file_size > limit {
            Err(Error::InvalidState)
        } else {
            match accept_chunk(fresh_assembly(s.files.map[m.file_path].file_size), m.chunk) {
                Some(a) => Ok(UploadView { target: Some((m.file_path, a)) }),
                None => Err(Error::ProtocolViolation),
            }
        },
        Some((path, a)) => match accept_chunk(a, m.chunk) {
            Some(b) => Ok(UploadView { target: Some((path, b)) }),
            None => Err(Error::ProtocolViolation),
        },
    }
}

/// What the upload `u` delivers when the stream of messages ends: the
/// file, where all of it has arrived. The upload is refused with
/// `InvalidState` where no message has arrived, and with
/// `ProtocolViolation` where the file is incomplete.
pub open spec fn delivered(u: UploadView) -> Result<(Seq<char>, Seq<u8>), Error> {
    match u.target {
        None => Err(Error::InvalidState),
        Some((path, a)) => if a.cursor == a.buffer.len() {
            Ok((path, a.buffer))
        } else {
            Err(Error::ProtocolViolation)
        },
    }
}

/// An upload in progress: takes the messages one by one as they arrive
/// and hands out the file when the stream ends.
pub struct Upload {
    file_path: String,
    assembler: Option<Assembler>,
}

impl View for Upload {
    type V = UploadView;

    closed spec fn view(&self) -> UploadView {
        match self.assembler {
            Some(assembler) => UploadView { target: Some((self.file_path@, assembler@)) },
            None => UploadView { target: None },
        }
    }
}

impl Upload {
    /// An upload of which no message has arrived.
    pub fn new() -> (upload: Upload)
        ensures
            upload@.target is None,
    {
        Upload { file_path: String::new(), assembler: None }
    }

    /// Takes the next message of the stream. A message that is refused
    /// leaves the upload as it was.
    pub fn receive(&mut self, node: &LocalDataCenter, message: &UploadFileRequest) -> (outcome:
        Result<(), Error>)
        ensures
            node@.valid(),
            match outcome {
                Ok(()) => receive(old(self)@, node@, message@, usize::MAX as nat) == Ok::<
                    _,
                    Error,
                >(final(self)@),
                Err(e) => receive(old(self)@, node@, message@, usize::MAX as nat) == Err::<
                    UploadView,
                    _,
                >(e) && final(self)@ == old(self)@,
            },
    {
        proof {
            use_type_invariant(node);
        }
        match &mut self.assembler {
            Some(assembler) => assembler.accept(&message.chunk),
            None => {
                let size: u64 = match node.files_by_path.get(&message.file_path) {
                    Some(metadata) => metadata.file_size,
                    None => {
                        return Err(Error::InvalidState);
                    },
                };
                let mut assembler = match Assembler::new(size) {
                    Ok(assembler) => assembler,
                    Err(e) => {
                        return Err(Error::InvalidState);
                    },
                };
                match assembler.accept(&message.chunk) {
                    Ok(()) => {
                        self.file_path = message.file_path.clone();
                        self.assembler = Some(assembler);
                        Ok(())
                    },
                    Err(e) => Err(e),
                }
            },
        }
    }

    /// Ends the upload and hands out the file.
    pub fn finish(self) -> (outcome: Result<UploadedFile, Error>)
        ensures
            match outcome {
                Ok(file) => {
                    &&& delivered(self@) == Ok::<_, Error>((file.file_path@, file.contents@))
                    &&& file.bytes_written == file.contents@.len()
                },
                Err(e) => delivered(self@) == Err::<(Seq<char>, Seq<u8>), _>(e),
            },
    {
        let Upload { file_path, assembler } = self;
        match assembler {
            None => Err(Error::InvalidState),
            Some(assembler) => {
                let size = assembler.size();
                match assembler.finish() {
                    Ok(contents) => Ok(
                        UploadedFile { file_path, contents, bytes_written: size as u64 },
                    ),
                    Err(e) => Err(e),
                }
            },
        }
    }
}

/// Round trip through a node: a file that is declared with its size,
/// uploaded in blocks of any size and then downloaded arrives as it was
/// sent. The upload delivers the file to the path it was addressed to,
/// and the chunks of the download make up the same file again.
///
/// The file is not empty: an upload of no bytes has no message, and so
/// names no path.
pub proof fn law_upload_then_download(
    s: NodeView,
    path: Seq<char>,
    data: Seq<u8>,
    block: nat,
    limit: nat,
)
    requires
        s.files.contains(path),
        s.files.map[path].file_size == data.len(),
        0 < data.len() <= limit,
        block > 0,
    ensures
        upload_outcome(s, upload_requests(path, data, block), limit) == Ok::<_, Error>(
            (path, data),
        ),
        download_outcome(s, path, data) == Ok::<_, Error>(split(data, DOWNLOAD_BLOCK as nat)),
        assemble(data.len(), split(data, DOWNLOAD_BLOCK as nat)) == Some(data),
{
    let messages = upload_requests(path, data, block);
    lemma_chunk_count_bounds(data.len(), block);
    assert(chunk_count(data.len(), block) > 0) by {
        if chunk_count(data.len(), block) == 0 {
            assert(0 * block == 0) by (nonlinear_arith);
        }
    }
    assert(messages[0].file_path == path);
    assert(chunks_of(messages) =~= split(data, block));
    law_round_trip(data, block);
    assert(data.take(data.len() as int) =~= data);
    law_round_trip(data, DOWNLOAD_BLOCK as nat);
}

/// The resources that a node reports as available.
pub open spec fn available_resources() -> Resources {
    Resources { ram_mb: 512, disk_mb: 512, vcpus: 1 }
}

/// A data center node: the metadata of its files, images, machines and
/// instances, and the process of each started instance.
pub struct LocalDataCenter {
    files_by_path: Table<FileMetadata>,
    images_by_id: Table<OsImageMetadata>,
    machines_by_id: Table<Machine>,
    instances_by_instance_id: Table<Instance>,
    processes_by_instance_id: Table<ProcessId>,
}

impl View for LocalDataCenter {
    type V = NodeView;

    closed spec fn view(&self) -> NodeView {
        NodeView {
            files: self.files_by_path@,
            images: self.images_by_id@,
            machines: self.machines_by_id@,
            instances: self.instances_by_instance_id@,
            processes: self.processes_by_instance_id@,
        }
    }
}

impl Default for LocalDataCenter {
    /// A node that holds nothing.
    fn default() -> (node: LocalDataCenter)
        ensures
            node@ == NodeView::empty(),
    {
        LocalDataCenter::new()
    }
}

impl LocalDataCenter {
    #[verifier::type_invariant]
    spec fn holds_valid_state(self) -> bool {
        self@.valid()
    }

    /// A node that holds nothing.
    pub fn new() -> (node: LocalDataCenter)
        ensures
            node@ == NodeView::empty(),
            node@.valid(),
    {
        LocalDataCenter {
            files_by_path: Table::new(),
            images_by_id: Table::new(),
            machines_by_id: Table::new(),
            instances_by_instance_id: Table::new(),
            processes_by_instance_id: Table::new(),
        }
    }

    /// Moves the tables out and leaves an empty node behind.
    fn take(&mut self) -> (taken: LocalDataCenter)
        ensures
            taken@ == old(self)@,
            taken@.valid(),
            final(self)@ == NodeView::empty(),
    {
        let mut taken = LocalDataCenter::new();
        core::mem::swap(self, &mut taken);
        proof {
            use_type_invariant(&taken);
        }
        taken
    }

    /// The resources that the node has on offer.
    pub fn check_resource(&self) -> (available: Resources)
        ensures
            available == available_resources(),
    {
        Resources { ram_mb: 512, disk_mb: 512, vcpus: 1 }
    }

    /// Declares a file of `file_size` bytes at `file_path`, in place of
    /// what was declared at that path before.
    pub fn create_file_metadata(&mut self, file_path: String, file_size: u64) -> (metadata:
        FileMetadata)
        ensures
            metadata@ == file_record(file_path@, file_size as nat),
            final(self)@ == apply(
                old(self)@,
                NodeOp::CreateFile { path: file_path@, size: file_size as nat },
            ),
            final(self)@.valid(),
    {
        let metadata = FileMetadata { file_path: file_path.clone(), file_size, version: 0 };
        let node = self.take();
        let LocalDataCenter {
            files_by_path: mut files,
            images_by_id,
            machines_by_id,
            instances_by_instance_id,
            processes_by_instance_id,
        } = node;
        files.insert(file_path, metadata.clone());
        proof {
            node@.lemma_with_file_valid(file_path@, file_size as nat);
        }
        *self = LocalDataCenter {
            files_by_path: files,
            images_by_id,
            machines_by_id,
            instances_by_instance_id,
            processes_by_instance_id,
        };
        metadata
    }

    /// What is declared of the file at `file_path`, if anything is.
    pub fn get_file_metadata(&self, file_path: &String) -> (found: Option<FileMetadata>)
        ensures
            found.deep_view() == self@.files.get(file_path@),
            self@.valid(),
    {
        proof {
            use_type_invariant(self);
        }
        match self.files_by_path.get(file_path) {
            Some(metadata) => Some(metadata.clone()),
            None => None,
        }
    }

    /// Whether `id` names an image, a machine or an instance.
    fn id_in_use(&self, id: &String) -> (used: bool)
        ensures
            used == self@.used_ids().contains(id@),
    {
        self.images_by_id.contains_key(id) || self.machines_by_id.contains_key(id)
            || self.instances_by_instance_id.contains_key(id)
    }

    /// The identifier that is assigned when `candidate` is proposed.
    fn fresh_id(&self, candidate: String) -> (id: String)
        ensures
            id@ == fresh_from(self@.used_ids(), candidate@),
            !self@.used_ids().contains(id@),
            is_id(candidate@) ==> is_id(id@),
    {
        let ghost proposed = candidate@;
        let ghost used = self@.used_ids();
        let ghost mut remaining = used;
        let mut id = candidate;
        proof {
            use_type_invariant(self);
            self@.lemma_used_ids_finite();
            lemma_fresh_from(used, proposed);
        }
        while self.id_in_use(&id)
            invariant
                used == self@.used_ids(),
                used.finite(),
                remaining.finite(),
                remaining.subset_of(used),
                forall|s: Seq<char>|
                    used.contains(s) && !remaining.contains(s) ==> s.len() < id@.len(),
                fresh_from(used, proposed) == fresh_from(remaining, id@),
            decreases remaining.len(),
        {
            let ghost shorter = id@;
            id.append("0");
            proof {
                reveal_strlit("0");
                assert(id@ =~= shorter.push('0'));
                assert(remaining.contains(shorter));
                remaining = remaining.remove(shorter);
            }
        }
        id
    }

    /// Declares an image for a file of `file_size` bytes at
    /// `destination_file_path` under the identifier that `candidate`
    /// gives: the file is declared first, then the image.
    pub fn create_image_metadata_with_candidate(
        &mut self,
        candidate: String,
        file_size: u64,
        destination_file_path: String,
    ) -> (image: OsImageMetadata)
        ensures
            image@ == NodeView::image_record(
                fresh_from(old(self)@.used_ids(), candidate@),
                destination_file_path@,
                file_size as nat,
            ),
            final(self)@ == apply(
                old(self)@,
                NodeOp::CreateImage {
                    candidate: candidate@,
                    path: destination_file_path@,
                    size: file_size as nat,
                },
            ),
            !old(self)@.used_ids().contains(image@.image_id),
            is_id(candidate@) ==> is_id(image@.image_id),
            final(self)@.valid(),
    {
        let image_id = self.fresh_id(candidate);
        let file_metadata = FileMetadata {
            file_path: destination_file_path.clone(),
            file_size,
            version: 0,
        };
        let image = OsImageMetadata { image_id: image_id.clone(), file_metadata };
        let node = self.take();
        let LocalDataCenter {
            files_by_path: mut files,
            images_by_id: mut images,
            machines_by_id,
            instances_by_instance_id,
            processes_by_instance_id,
        } = node;
        files.insert(destination_file_path, image.file_metadata.clone());
        images.insert(image_id, image.clone());
        proof {
            node@.lemma_with_image_valid(image@.image_id, destination_file_path@, file_size as nat);
        }
        *self = LocalDataCenter {
            files_by_path: files,
            images_by_id: images,
            machines_by_id,
            instances_by_instance_id,
            processes_by_instance_id,
        };
        image
    }

    /// Declares an image for a file of `file_size` bytes at
    /// `destination_file_path` under a new random identifier.
    pub fn create_image_metadata(&mut self, file_size: u64, destination_file_path: String) -> (image:
        OsImageMetadata)
        ensures
            image@ == NodeView::image_record(
                image@.image_id,
                destination_file_path@,
                file_size as nat,
            ),
            final(self)@ == apply(
                old(self)@,
                NodeOp::CreateImage {
                    candidate: image@.image_id,
                    path: destination_file_path@,
                    size: file_size as nat,
                },
            ),
            !old(self)@.used_ids().contains(image@.image_id),
            is_id(image@.image_id),
            final(self)@.valid(),
    {
        proof {
            use_type_invariant(&*self);
            self@.lemma_used_ids_finite();
        }
        let candidate = random_id();
        let image = self.create_image_metadata_with_candidate(
            candidate,
            file_size,
            destination_file_path,
        );
        proof {
            lemma_fresh_from(old(self)@.used_ids(), image@.image_id);
        }
        image
    }

    /// The image that `image_id` names, if there is one.
    pub fn get_image_metadata(&self, image_id: &String) -> (found: Option<OsImageMetadata>)
        ensures
            found.deep_view() == self@.images.get(image_id@),
            self@.valid(),
    {
        proof {
            use_type_invariant(self);
        }
        match self.images_by_id.get(image_id) {
            Some(image) => Some(image.clone()),
            None => None,
        }
    }

    /// All images, in the order in which they were declared.
    pub fn list_image_metadata(&self) -> (images: Vec<OsImageMetadata>)
        ensures
            images.deep_view() == self@.images.values(),
            self@.valid(),
    {
        proof {
            use_type_invariant(self);
        }
        let count = self.images_by_id.len();
        let mut images: Vec<OsImageMetadata> = Vec::new();
        let mut i: usize = 0;
        while i < count
            invariant
                i <= count,
                count == self@.images.order.len(),
                images.len() == i,
                forall|j: int| 0 <= j < i ==> (#[trigger] images[j])@ == self@.images.values()[j],
            decreases count - i,
        {
            images.push(self.images_by_id.value_at(i).clone());
            i = i + 1;
        }
        assert(images.deep_view() =~= self@.images.values());
        images
    }

    /// Makes a machine with `resources` from image `image_id` under the
    /// identifier that `candidate` gives. Fails with `NotFound` where the
    /// node holds no such image.
    pub fn create_machine_with_candidate(
        &mut self,
        candidate: String,
        image_id: &String,
        resources: Resources,
    ) -> (made: Result<Machine, Error>)
        ensures
            final(self)@ == apply(
                old(self)@,
                NodeOp::CreateMachine { candidate: candidate@, image_id: image_id@, resources },
            ),
            final(self)@.valid(),
            match made {
                Ok(machine) => {
                    &&& old(self)@.images.contains(image_id@)
                    &&& machine@ == old(self)@.machine_record(
                        fresh_from(old(self)@.used_ids(), candidate@),
                        image_id@,
                        resources,
                    )
                    &&& !old(self)@.used_ids().contains(machine@.machine_id)
                    &&& is_id(candidate@) ==> is_id(machine@.machine_id)
                },
                Err(e) => !old(self)@.images.contains(image_id@) && e == Error::NotFound(
                    Entity::Image,
                ),
            },
    {
        proof {
            use_type_invariant(&*self);
        }
        let image = match self.images_by_id.get(image_id) {
            Some(image) => image.clone(),
            None => {
                return Err(Error::NotFound(Entity::Image));
            },
        };
        let machine_id = self.fresh_id(candidate);
        let machine = Machine { machine_id: machine_id.clone(), resources, image_metadata: image };
        let node = self.take();
        let LocalDataCenter {
            files_by_path,
            images_by_id,
            machines_by_id: mut machines,
            instances_by_instance_id,
            processes_by_instance_id,
        } = node;
        machines.insert(machine_id, machine.clone());
        proof {
            node@.lemma_with_machine_valid(machine@.machine_id, image_id@, resources);
        }
        *self = LocalDataCenter {
            files_by_path,
            images_by_id,
            machines_by_id: machines,
            instances_by_instance_id,
            processes_by_instance_id,
        };
        Ok(machine)
    }

    /// Makes a machine with `resources` from image `image_id` under a new
    /// random identifier. Fails with `NotFound` where the node holds no
    /// such image.
    pub fn create_machine(&mut self, image_id: &String, resources: Resources) -> (made: Result<
        Machine,
        Error,
    >)
        ensures
            final(self)@.valid(),
            match made {
                Ok(machine) => {
                    &&& old(self)@.images.contains(image_id@)
                    &&& machine@ == old(self)@.machine_record(
                        machine@.machine_id,
                        image_id@,
                        resources,
                    )
                    &&& final(self)@ == apply(
                        old(self)@,
                        NodeOp::CreateMachine {
                            candidate: machine@.machine_id,
                            image_id: image_id@,
                            resources,
                        },
                    )
                    &&& !old(self)@.used_ids().contains(machine@.machine_id)
                    &&& is_id(machine@.machine_id)
                },
                Err(e) => {
                    &&& !old(self)@.images.contains(image_id@)
                    &&& e == Error::NotFound(Entity::Image)
                    &&& final(self)@ == old(self)@
                },
            },
    {
        proof {
            use_type_invariant(&*self);
            self@.lemma_used_ids_finite();
        }
        let candidate = random_id();
        let made = self.create_machine_with_candidate(candidate, image_id, resources);
        proof {
            if made is Ok {
                lemma_fresh_from(old(self)@.used_ids(), made->Ok_0@.machine_id);
            }
        }
        made
    }

    /// All machines, in the order in which they were made.
    pub fn list_machines(&self) -> (machines: Vec<Machine>)
        ensures
            machines.deep_view() == self@.machines.values(),
            self@.valid(),
    {
        proof {
            use_type_invariant(self);
        }
        let count = self.machines_by_id.len();
        let mut machines: Vec<Machine> = Vec::new();
        let mut i: usize = 0;
        while i < count
            invariant
                i <= count,
                count == self@.machines.order.len(),
                machines.len() == i,
                forall|j: int|
                    0 <= j < i ==> (#[trigger] machines[j])@ == self@.machines.values()[j],
            decreases count - i,
        {
            machines.push(self.machines_by_id.value_at(i).clone());
            i = i + 1;
        }
        assert(machines.deep_view() =~= self@.machines.values());
        machines
    }

    /// All instances, in the order in which they were provisioned.
    pub fn list_instances(&self) -> (instances: Vec<Instance>)
        ensures
            instances.deep_view() == self@.instances.values(),
            self@.valid(),
    {
        proof {
            use_type_invariant(self);
        }
        let count = self.instances_by_instance_id.len();
        let mut instances: Vec<Instance> = Vec::new();
        let mut i: usize = 0;
        while i < count
            invariant
                i <= count,
                count == self@.instances.order.len(),
                instances.len() == i,
                forall|j: int|
                    0 <= j < i ==> (#[trigger] instances[j])@ == self@.instances.values()[j],
            decreases count - i,
        {
            instances.push(self.instances_by_instance_id.value_at(i).clone());
            i = i + 1;
        }
        assert(instances.deep_view() =~= self@.instances.values());
        instances
    }

    /// What the launcher is to be asked for before an instance of machine
    /// `machine_id` is provisioned. Fails with `NotFound` where the node
    /// holds no such machine.
    pub fn launch_request_for_machine(&self, machine_id: &String) -> (request: Result<
        LaunchRequest,
        Error,
    >)
        ensures
            self@.valid(),
            match request {
                Ok(launch) => self@.machines.contains(machine_id@) && launch@ == launch_of(
                    self@.machines.map[machine_id@],
                ),
                Err(e) => !self@.machines.contains(machine_id@) && e == Error::NotFound(
                    Entity::Machine,
                ),
            },
    {
        proof {
            use_type_invariant(self);
        }
        match self.machines_by_id.get(machine_id) {
            Some(machine) => Ok(launch_request(machine)),
            None => Err(Error::NotFound(Entity::Machine)),
        }
    }

    /// Records an instance of machine `machine_id` that runs as process
    /// `process_id`, under the identifier that `candidate` gives. The
    /// instance is started. Fails with `NotFound` where the node holds no
    /// such machine.
    pub fn provision_instance_with_candidate(
        &mut self,
        candidate: String,
        machine_id: &String,
        process_id: ProcessId,
    ) -> (made: Result<Instance, Error>)
        ensures
            final(self)@ == apply(
                old(self)@,
                NodeOp::Provision { candidate: candidate@, machine_id: machine_id@, process_id },
            ),
            final(self)@.valid(),
            match made {
                Ok(instance) => {
                    &&& old(self)@.machines.contains(machine_id@)
                    &&& instance@ == old(self)@.instance_record(
                        fresh_from(old(self)@.used_ids(), candidate@),
                        machine_id@,
                        process_id,
                    )
                    &&& !old(self)@.used_ids().contains(instance@.instance_id)
                    &&& is_id(candidate@) ==> is_id(instance@.instance_id)
                },
                Err(e) => !old(self)@.machines.contains(machine_id@) && e == Error::NotFound(
                    Entity::Machine,
                ),
            },
    {
        proof {
            use_type_invariant(&*self);
        }
        let machine = match self.machines_by_id.get(machine_id) {
            Some(machine) => machine.clone(),
            None => {
                return Err(Error::NotFound(Entity::Machine));
            },
        };
        let instance_id = self.fresh_id(candidate);
        let instance = Instance {
            instance_id: instance_id.clone(),
            process_id,
            ip_address: String::from_str("192.168.0.1"),
            machine,
            state: InstanceState::Started,
        };
        let node = self.take();
        let LocalDataCenter {
            files_by_path,
            images_by_id,
            machines_by_id,
            instances_by_instance_id: mut instances,
            processes_by_instance_id: mut processes,
        } = node;
        instances.insert(instance_id.clone(), instance.clone());
        processes.insert(instance_id, process_id);
        proof {
            node@.lemma_with_instance_valid(instance@.instance_id, machine_id@, process_id);
        }
        *self = LocalDataCenter {
            files_by_path,
            images_by_id,
            machines_by_id,
            instances_by_instance_id: instances,
            processes_by_instance_id: processes,
        };
        Ok(instance)
    }

    /// Records an instance of machine `machine_id` that runs as process
    /// `process_id`, under a new random identifier. The instance is
    /// started. Fails with `NotFound` where the node holds no such machine.
    pub fn provision_instance(&mut self, machine_id: &String, process_id: ProcessId) -> (made:
        Result<Instance, Error>)
        ensures
            final(self)@.valid(),
            match made {
                Ok(instance) => {
                    &&& old(self)@.machines.contains(machine_id@)
                    &&& instance@ == old(self)@.instance_record(
                        instance@.instance_id,
                        machine_id@,
                        process_id,
                    )
                    &&& final(self)@ == apply(
                        old(self)@,
                        NodeOp::Provision {
                            candidate: instance@.instance_id,
                            machine_id: machine_id@,
                            process_id,
                        },
                    )
                    &&& !old(self)@.used_ids().contains(instance@.instance_id)
                    &&& is_id(instance@.instance_id)
                },
                Err(e) => {
                    &&& !old(self)@.machines.contains(machine_id@)
                    &&& e == Error::NotFound(Entity::Machine)
                    &&& final(self)@ == old(self)@
                },
            },
    {
        proof {
            use_type_invariant(&*self);
            self@.lemma_used_ids_finite();
        }
        let candidate = random_id();
        let made = self.provision_instance_with_candidate(candidate, machine_id, process_id);
        proof {
            if made is Ok {
                lemma_fresh_from(old(self)@.used_ids(), made->Ok_0@.instance_id);
            }
        }
        made
    }

    /// What the launcher is to be asked for before instance `instance_id`
    /// is started. Fails with `NotFound` where the node holds no such
    /// instance.
    pub fn launch_request_for_instance(&self, instance_id: &String) -> (request: Result<
        LaunchRequest,
        Error,
    >)
        ensures
            self@.valid(),
            match request {
                Ok(launch) => self@.instances.contains(instance_id@) && launch@ == launch_of(
                    self@.instances.map[instance_id@].machine,
                ),
                Err(e) => !self@.instances.contains(instance_id@) && e == Error::NotFound(
                    Entity::Instance,
                ),
            },
    {
        proof {
            use_type_invariant(self);
        }
        match self.instances_by_instance_id.get(instance_id) {
            Some(instance) => Ok(launch_request(&instance.machine)),
            None => Err(Error::NotFound(Entity::Instance)),
        }
    }

    /// Records that instance `instance_id` now runs as process
    /// `process_id`. The instance is started whatever it was before, and
    /// the process that it had, if any, is forgotten and handed to the
    /// caller. Fails with `NotFound` where the node holds no such instance.
    pub fn start_instance(&mut self, instance_id: &String, process_id: ProcessId) -> (outcome:
        Result<Restart, Error>)
        ensures
            final(self)@ == apply(
                old(self)@,
                NodeOp::Start { instance_id: instance_id@, process_id },
            ),
            final(self)@.valid(),
            match outcome {
                Ok(restart) => {
                    &&& old(self)@.instances.contains(instance_id@)
                    &&& final(self)@.instances.get(instance_id@) == Some(restart.instance@)
                    &&& restart.replaced == old(self)@.processes.get(instance_id@)
                },
                Err(e) => !old(self)@.instances.contains(instance_id@) && e == Error::NotFound(
                    Entity::Instance,
                ),
            },
    {
        proof {
            use_type_invariant(&*self);
        }
        let mut instance = match self.instances_by_instance_id.get(instance_id) {
            Some(instance) => instance.clone(),
            None => {
                return Err(Error::NotFound(Entity::Instance));
            },
        };
        let replaced = match self.processes_by_instance_id.get(instance_id) {
            Some(process) => Some(*process),
            None => None,
        };
        instance.state = InstanceState::Started;
        instance.process_id = process_id;
        let node = self.take();
        let LocalDataCenter {
            files_by_path,
            images_by_id,
            machines_by_id,
            instances_by_instance_id: mut instances,
            processes_by_instance_id: mut processes,
        } = node;
        instances.insert(instance_id.clone(), instance.clone());
        processes.insert(instance_id.clone(), process_id);
        proof {
            node@.lemma_started_valid(instance_id@, process_id);
        }
        *self = LocalDataCenter {
            files_by_path,
            images_by_id,
            machines_by_id,
            instances_by_instance_id: instances,
            processes_by_instance_id: processes,
        };
        Ok(Restart { instance, replaced })
    }

    /// Records that instance `instance_id` is stopped and forgets its
    /// process, which is handed to the caller to be terminated. An
    /// instance without a process is marked stopped all the same. Fails
    /// with `NotFound` where the node holds no such instance.
    pub fn stop_instance(&mut self, instance_id: &String) -> (outcome: Result<
        Option<ProcessId>,
        Error,
    >)
        ensures
            final(self)@ == apply(old(self)@, NodeOp::Stop { instance_id: instance_id@ }),
            final(self)@.valid(),
            match outcome {
                Ok(process) => old(self)@.instances.contains(instance_id@) && process == old(
                    self,
                )@.processes.get(instance_id@),
                Err(e) => !old(self)@.instances.contains(instance_id@) && e == Error::NotFound(
                    Entity::Instance,
                ),
            },
    {
        proof {
            use_type_invariant(&*self);
        }
        let mut instance = match self.instances_by_instance_id.get(instance_id) {
            Some(instance) => instance.clone(),
            None => {
                return Err(Error::NotFound(Entity::Instance));
            },
        };
        instance.state = InstanceState::Stopped;
        let node = self.take();
        let LocalDataCenter {
            files_by_path,
            images_by_id,
            machines_by_id,
            instances_by_instance_id: mut instances,
            processes_by_instance_id: mut processes,
        } = node;
        let process = processes.remove(instance_id);
        instances.insert(instance_id.clone(), instance);
        proof {
            node@.lemma_stopped_valid(instance_id@);
        }
        *self = LocalDataCenter {
            files_by_path,
            images_by_id,
            machines_by_id,
            instances_by_instance_id: instances,
            processes_by_instance_id: processes,
        };
        Ok(process)
    }

    /// Rebuilds the file that the messages of an upload carry. The node
    /// writes nothing: it hands the file to the caller, who stores it.
    pub fn upload_file(&self, messages: &Vec<UploadFileRequest>) -> (outcome: Result<
        UploadedFile,
        Error,
    >)
        ensures
            self@.valid(),
            match outcome {
                Ok(file) => {
                    &&& upload_outcome(self@, messages.deep_view(), usize::MAX as nat) == Ok::<
                        _,
                        Error,
                    >((file.file_path@, file.contents@))
                    &&& file.bytes_written == file.contents@.len()
                },
                Err(e) => upload_outcome(self@, messages.deep_view(), usize::MAX as nat) == Err::<
                    (Seq<char>, Seq<u8>),
                    _,
                >(e),
            },
    {
        proof {
            use_type_invariant(self);
        }
        let ghost sent = messages.deep_view();
        let ghost chunks = chunks_of(sent);
        let mut upload = Upload::new();
        let mut i: usize = 0;
        while i < messages.len()
            invariant
                i <= messages.len(),
                self@.valid(),
                sent == messages.deep_view(),
                chunks == chunks_of(sent),
                i == 0 ==> upload@.target is None,
                i > 0 ==> {
                    &&& self@.files.contains(sent[0].file_path)
                    &&& self@.files.map[sent[0].file_path].file_size <= usize::MAX
                    &&& upload@.target matches Some((path, a))
                    &&& path == sent[0].file_path
                    &&& a.buffer.len() == self@.files.map[sent[0].file_path].file_size
                    &&& accept_chunks(
                        fresh_assembly(self@.files.map[sent[0].file_path].file_size),
                        chunks.take(i as int),
                    ) == Some(a)
                },
            decreases messages.len() - i,
        {
            let received = upload.receive(self, &messages[i]);
            proof {
                assert(chunks.take(i + 1).drop_last() =~= chunks.take(i as int));
                assert(chunks.take(i + 1).last() == sent[i as int].chunk);
                assert(sent[i as int] == messages[i as int]@);
                if i == 0 {
                    assert(chunks.take(0) =~= Seq::<ChunkView>::empty());
                }
            }
            match received {
                Ok(()) => {},
                Err(e) => {
                    proof {
                        if self@.files.contains(sent[0].file_path) && self@.files.map[sent[0].file_path].file_size
                            <= usize::MAX {
                            lemma_refusal_is_final(
                                fresh_assembly(self@.files.map[sent[0].file_path].file_size),
                                chunks,
                                i + 1,
                            );
                        }
                    }
                    return Err(e);
                },
            }
            i = i + 1;
        }
        assert(chunks.take(i as int) =~= chunks);
        upload.finish()
    }

    /// Cuts the content of the file at `source_path` into the chunks of a
    /// download. The node reads nothing: the caller hands it `contents`,
    /// the bytes of the file as they lie in storage.
    pub fn download_file(&self, source_path: &String, contents: &Vec<u8>) -> (outcome: Result<
        Vec<Chunk>,
        Error,
    >)
        ensures
            self@.valid(),
            match outcome {
                Ok(chunks) => download_outcome(self@, source_path@, contents@) == Ok::<_, Error>(
                    chunks.deep_view(),
                ),
                Err(e) => download_outcome(self@, source_path@, contents@) == Err::<
                    Seq<ChunkView>,
                    _,
                >(e),
            },
    {
        proof {
            use_type_invariant(self);
        }
        let metadata = match self.files_by_path.get(source_path) {
            Some(metadata) => metadata,
            None => {
                return Err(Error::InvalidState);
            },
        };
        if (contents.len() as u64) < metadata.file_size {
            return Err(Error::IoFailure);
        }
        let size: usize = metadata.file_size as usize;
        if size == contents.len() {
            assert(contents@.take(size as int) =~= contents@);
            Ok(split_chunks(contents, DOWNLOAD_BLOCK))
        } else {
            let mut declared: Vec<u8> = Vec::new();
            let mut i: usize = 0;
            while i < size
                invariant
                    i <= size <= contents.len(),
                    declared@ == contents@.take(i as int),
                decreases size - i,
            {
                declared.push(contents[i]);
                i = i + 1;
                assert(declared@ =~= contents@.take(i as int));
            }
            Ok(split_chunks(&declared, DOWNLOAD_BLOCK))
        }
    }
}

} // verus!
