//! The course of a command of the client.
//!
//! Most commands are one call to the node. Some take several steps: an
//! upload reads the local file, declares it to the node and then sends
//! it; a download asks for the declared size, receives the chunks and
//! writes the file that they make up; `up` uploads an image, makes a
//! machine from it and provisions an instance of the machine.
//!
//! A [`Session`] decides what is due next. It reads no file and makes no
//! call: it hands out an [`Action`], the program performs it and reports
//! the outcome as an [`Event`].

use vstd::prelude::*;
use crate::client::{Operation, OperationView};
use crate::error::{Entity, Error};
use crate::model::{
    FileMetadata, FileMetadataView, Instance, InstanceView, Machine, MachineView, OsImageMetadata,
    OsImageMetadataView, Resources,
};
use crate::transfer::{
    assemble, assemble_chunks, stream_chunks, upload_requests, Chunk, ChunkView,
    UploadFileRequest, UploadFileRequestView, ONE_MB,
};

verus! {

/// A call to the node.
#[derive(Debug, PartialEq, Eq)]
pub enum Request {
    CreateFileMetadata { file_path: String, file_size: u64 },
    GetFileMetadata { file_path: String },
    CreateImageMetadata { file_size: u64, destination_file_path: String },
    GetImageMetadata { image_id: String },
    ListImageMetadata,
    UploadFile { messages: Vec<UploadFileRequest> },
    DownloadFile { source_path: String },
    CreateMachine { image_id: String, resources: Resources },
    ListMachines,
    ProvisionInstance { machine_id: String },
    StartInstance { instance_id: String },
    StopInstance { instance_id: String },
    ListInstances,
}

/// The mathematical content of a [`Request`].
pub enum RequestView {
    CreateFileMetadata { file_path: Seq<char>, file_size: nat },
    GetFileMetadata { file_path: Seq<char> },
    CreateImageMetadata { file_size: nat, destination_file_path: Seq<char> },
    GetImageMetadata { image_id: Seq<char> },
    ListImageMetadata,
    UploadFile { messages: Seq<UploadFileRequestView> },
    DownloadFile { source_path: Seq<char> },
    CreateMachine { image_id: Seq<char>, resources: Resources },
    ListMachines,
    ProvisionInstance { machine_id: Seq<char> },
    StartInstance { instance_id: Seq<char> },
    StopInstance { instance_id: Seq<char> },
    ListInstances,
}

impl View for Request {
    type V = RequestView;

    open spec fn view(&self) -> RequestView {
        match self {
            Request::CreateFileMetadata {
                file_path,
                file_size,
            } => RequestView::CreateFileMetadata {
                file_path: file_path@,
                file_size: *file_size as nat,
            },
            Request::GetFileMetadata { file_path } => RequestView::GetFileMetadata {
                file_path: file_path@,
            },
            Request::CreateImageMetadata {
                file_size,
                destination_file_path,
            } => RequestView::CreateImageMetadata {
                file_size: *file_size as nat,
                destination_file_path: destination_file_path@,
            },
            Request::GetImageMetadata { image_id } => RequestView::GetImageMetadata {
                image_id: image_id@,
            },
            Request::ListImageMetadata => RequestView::ListImageMetadata,
            Request::UploadFile { messages } => RequestView::UploadFile {
                messages: messages.deep_view(),
            },
            Request::DownloadFile { source_path } => RequestView::DownloadFile {
                source_path: source_path@,
            },
            Request::CreateMachine { image_id, resources } => RequestView::CreateMachine {
                image_id: image_id@,
                resources: *resources,
            },
            Request::ListMachines => RequestView::ListMachines,
            Request::ProvisionInstance { machine_id } => RequestView::ProvisionInstance {
                machine_id: machine_id@,
            },
            Request::StartInstance { instance_id } => RequestView::StartInstance {
                instance_id: instance_id@,
            },
            Request::StopInstance { instance_id } => RequestView::StopInstance {
                instance_id: instance_id@,
            },
            Request::ListInstances => RequestView::ListInstances,
        }
    }
}

/// What the program is to do next.
#[derive(Debug, PartialEq, Eq)]
pub enum Action {
    /// Read the local file at `path` whole.
    ReadFile { path: String },
    /// Write `contents` to the local file at `path`.
    WriteFile { path: String, contents: Vec<u8> },
    /// Make a call to the node.
    Call(Request),
    /// End the command: with success, or with the reason of its failure.
    Finish(Result<(), Error>),
}

/// The mathematical content of an [`Action`].
pub enum ActionView {
    ReadFile { path: Seq<char> },
    WriteFile { path: Seq<char>, contents: Seq<u8> },
    Call(RequestView),
    Finish(Result<(), Error>),
}

impl View for Action {
    type V = ActionView;

    open spec fn view(&self) -> ActionView {
        match self {
            Action::ReadFile { path } => ActionView::ReadFile { path: path@ },
            Action::WriteFile { path, contents } => ActionView::WriteFile {
                path: path@,
                contents: contents@,
            },
            Action::Call(request) => ActionView::Call(request@),
            Action::Finish(outcome) => ActionView::Finish(*outcome),
        }
    }
}

/// What came of an action.
#[derive(Debug, PartialEq, Eq)]
pub enum Event {
    /// The local file was read: its content.
    FileRead(Vec<u8>),
    /// The node declared the file.
    FileMetadataCreated(FileMetadata),
    /// The node looked for the declaration of a file.
    FileMetadataFound(Option<FileMetadata>),
    /// The node declared the image.
    ImageCreated(OsImageMetadata),
    /// The node looked for the image.
    ImageFound(Option<OsImageMetadata>),
    /// The node took the upload.
    Uploaded,
    /// The node sent the chunks of the file, in the order of arrival.
    Downloaded(Vec<Chunk>),
    /// The node made the machine.
    MachineCreated(Machine),
    /// The node provisioned the instance.
    InstanceProvisioned(Instance),
    /// The action was carried out and there is nothing to report of it.
    Done,
    /// The action failed, for the reason given.
    Failed(Error),
}

/// The mathematical content of an [`Event`].
pub enum EventView {
    FileRead(Seq<u8>),
    FileMetadataCreated(FileMetadataView),
    FileMetadataFound(Option<FileMetadataView>),
    ImageCreated(OsImageMetadataView),
    ImageFound(Option<OsImageMetadataView>),
    Uploaded,
    Downloaded(Seq<ChunkView>),
    MachineCreated(MachineView),
    InstanceProvisioned(InstanceView),
    Done,
    Failed(Error),
}

impl View for Event {
    type V = EventView;

    open spec fn view(&self) -> EventView {
        match self {
            Event::FileRead(contents) => EventView::FileRead(contents@),
            Event::FileMetadataCreated(metadata) => EventView::FileMetadataCreated(metadata@),
            Event::FileMetadataFound(found) => EventView::FileMetadataFound(found.deep_view()),
            Event::ImageCreated(image) => EventView::ImageCreated(image@),
            Event::ImageFound(found) => EventView::ImageFound(found.deep_view()),
            Event::Uploaded => EventView::Uploaded,
            Event::Downloaded(chunks) => EventView::Downloaded(chunks.deep_view()),
            Event::MachineCreated(machine) => EventView::MachineCreated(machine@),
            Event::InstanceProvisioned(instance) => EventView::InstanceProvisioned(instance@),
            Event::Done => EventView::Done,
            Event::Failed(e) => EventView::Failed(*e),
        }
    }
}

/// What a session waits for.
#[derive(Clone, Copy, Debug, PartialEq, Eq, Structural)]
pub enum Stage {
    /// For the content of the local file.
    Reading,
    /// For the node to declare, or find, the file that is uploaded.
    Declaring,
    /// For the node to take the upload.
    Uploading,
    /// For the node to make the machine.
    CreatingMachine,
    /// For the node to provision the instance.
    Provisioning,
    /// For the node to find the file, or the image, that is asked for.
    Looking,
    /// For the chunks of the file.
    Downloading,
    /// For the local file to be written.
    Writing,
    /// For the answer to the one call of the command.
    Calling,
    /// For nothing: the command has ended.
    Finished,
}

/// The course of one command.
#[derive(Debug)]
pub struct Session {
    operation: Operation,
    stage: Stage,
    /// The content of the local file, once read.
    contents: Vec<u8>,
    /// The declared size of the file that is downloaded, once known.
    file_size: u64,
    /// The image that was uploaded, once declared.
    image_id: String,
}

/// The mathematical content of a [`Session`].
pub struct SessionView {
    pub operation: OperationView,
    pub stage: Stage,
    pub contents: Seq<u8>,
    pub file_size: nat,
    pub image_id: Seq<char>,
}

impl View for Session {
    type V = SessionView;

    closed spec fn view(&self) -> SessionView {
        SessionView {
            operation: self.operation@,
            stage: self.stage,
            contents: self.contents@,
            file_size: self.file_size as nat,
            image_id: self.image_id@,
        }
    }
}

/// The end of session `s` with `outcome`.
pub open spec fn finish(s: SessionView, outcome: Result<(), Error>) -> (SessionView, ActionView) {
    (SessionView { stage: Stage::Finished, ..s }, ActionView::Finish(outcome))
}

/// Session `s` at stage `stage`, making the call `request`.
pub open spec fn call(s: SessionView, stage: Stage, request: RequestView) -> (
    SessionView,
    ActionView,
) {
    (SessionView { stage, ..s }, ActionView::Call(request))
}

/// The first step of the command `operation`: the one call of a command
/// that is one call, the reading of the local file for an upload, and the
/// search for the file or image for a download.
pub open spec fn session_start(operation: OperationView) -> (SessionView, ActionView) {
    let s = SessionView {
        operation,
        stage: Stage::Finished,
        contents: Seq::empty(),
        file_size: 0,
        image_id: Seq::empty(),
    };
    match operation {
        OperationView::ProvisionInstance { machine_id } => call(
            s,
            Stage::Calling,
            RequestView::ProvisionInstance { machine_id },
        ),
        OperationView::StopInstance { instance_id } => call(
            s,
            Stage::Calling,
            RequestView::StopInstance { instance_id },
        ),
        OperationView::StartInstance { instance_id } => call(
            s,
            Stage::Calling,
            RequestView::StartInstance { instance_id },
        ),
        OperationView::ListInstances => call(s, Stage::Calling, RequestView::ListInstances),
        OperationView::CreateMachine { image_id, resources } => call(
            s,
            Stage::Calling,
            RequestView::CreateMachine { image_id, resources },
        ),
        OperationView::ListMachines => call(s, Stage::Calling, RequestView::ListMachines),
        OperationView::ListImageMetadata => call(
            s,
            Stage::Calling,
            RequestView::ListImageMetadata,
        ),
        OperationView::GetImageMetadata { image_id } => call(
            s,
            Stage::Looking,
            RequestView::GetImageMetadata { image_id },
        ),
        OperationView::DownloadImage { image_id, .. } => call(
            s,
            Stage::Looking,
            RequestView::GetImageMetadata { image_id },
        ),
        OperationView::DownloadFile { storage_path, .. } => call(
            s,
            Stage::Looking,
            RequestView::GetFileMetadata { file_path: storage_path },
        ),
        OperationView::UpLocalImage { local_path, .. } => (
            SessionView { stage: Stage::Reading, ..s },
            ActionView::ReadFile { path: local_path },
        ),
        OperationView::UploadFile { local_file_path, .. } => (
            SessionView { stage: Stage::Reading, ..s },
            ActionView::ReadFile { path: local_file_path },
        ),
        OperationView::UploadImage { source_image_path, .. } => (
            SessionView { stage: Stage::Reading, ..s },
            ActionView::ReadFile { path: source_image_path },
        ),
    }
}

/// The step after the local file has been read: the node is asked to
/// declare a file, or an image, of the size of what was read, or to find
/// the image that the command names.
pub open spec fn after_read(s: SessionView, contents: Seq<u8>) -> (SessionView, ActionView) {
    let read = SessionView { contents, ..s };
    match s.operation {
        OperationView::UpLocalImage { storage_path, .. } => call(
            read,
            Stage::Declaring,
            RequestView::CreateImageMetadata {
                file_size: contents.len(),
                destination_file_path: storage_path,
            },
        ),
        OperationView::UploadFile { storage_file_path, .. } => call(
            read,
            Stage::Declaring,
            RequestView::CreateFileMetadata {
                file_path: storage_file_path,
                file_size: contents.len(),
            },
        ),
        OperationView::UploadImage { image_id: Some(image_id), .. } => call(
            read,
            Stage::Declaring,
            RequestView::GetImageMetadata { image_id },
        ),
        OperationView::UploadImage { image_id: None, destination_image_path, .. } => call(
            read,
            Stage::Declaring,
            RequestView::CreateImageMetadata {
                file_size: contents.len(),
                destination_file_path: destination_image_path,
            },
        ),
        _ => finish(s, Err(Error::InvalidState)),
    }
}

/// The step that sends the content that was read to the path of `file`,
/// cut into blocks of [`ONE_MB`] bytes. The session keeps the image that
/// the file belongs to and lets go of the content.
pub open spec fn upload(s: SessionView, file: FileMetadataView, image_id: Seq<char>) -> (
    SessionView,
    ActionView,
) {
    call(
        SessionView { image_id, contents: Seq::empty(), ..s },
        Stage::Uploading,
        RequestView::UploadFile {
            messages: upload_requests(file.file_path, s.contents, ONE_MB as nat),
        },
    )
}

/// The step after the node has declared the file of an upload.
pub open spec fn after_file_declared(s: SessionView, file: FileMetadataView) -> (
    SessionView,
    ActionView,
) {
    match s.operation {
        OperationView::UploadFile { .. } => upload(s, file, s.image_id),
        _ => finish(s, Err(Error::InvalidState)),
    }
}

/// The step after the node has declared the image of an upload.
pub open spec fn after_image_declared(s: SessionView, image: OsImageMetadataView) -> (
    SessionView,
    ActionView,
) {
    match s.operation {
        OperationView::UpLocalImage { .. } => upload(s, image.file_metadata, image.image_id),
        OperationView::UploadImage { image_id: None, .. } => upload(
            s,
            image.file_metadata,
            image.image_id,
        ),
        _ => finish(s, Err(Error::InvalidState)),
    }
}

/// The step after the node has looked for the image that an upload
/// names.
pub open spec fn after_image_sought(s: SessionView, found: Option<OsImageMetadataView>) -> (
    SessionView,
    ActionView,
) {
    match s.operation {
        OperationView::UploadImage { image_id: Some(_), .. } => match found {
            Some(image) => upload(s, image.file_metadata, image.image_id),
            None => finish(s, Err(Error::NotFound(Entity::Image))),
        },
        _ => finish(s, Err(Error::InvalidState)),
    }
}

/// The step after the node has taken the upload: `up` goes on to make a
/// machine from the image, and the other uploads have ended.
pub open spec fn after_upload(s: SessionView) -> (SessionView, ActionView) {
    match s.operation {
        OperationView::UpLocalImage { resources, .. } => call(
            s,
            Stage::CreatingMachine,
            RequestView::CreateMachine { image_id: s.image_id, resources },
        ),
        _ => finish(s, Ok(())),
    }
}

/// The step that asks for the chunks of `file`.
pub open spec fn download(s: SessionView, file: FileMetadataView) -> (SessionView, ActionView) {
    call(
        SessionView { file_size: file.file_size, ..s },
        Stage::Downloading,
        RequestView::DownloadFile { source_path: file.file_path },
    )
}

/// The step after the node has looked for the file of a download.
pub open spec fn after_file_found(s: SessionView, found: Option<FileMetadataView>) -> (
    SessionView,
    ActionView,
) {
    match s.operation {
        OperationView::DownloadFile { .. } => match found {
            Some(file) => download(s, file),
            None => finish(s, Err(Error::NotFound(Entity::File))),
        },
        _ => finish(s, Err(Error::InvalidState)),
    }
}

/// The step after the node has looked for the image of a download, or
/// for the image that is to be shown.
pub open spec fn after_image_found(s: SessionView, found: Option<OsImageMetadataView>) -> (
    SessionView,
    ActionView,
) {
    match s.operation {
        OperationView::DownloadImage { .. } => match found {
            Some(image) => download(s, image.file_metadata),
            None => finish(s, Err(Error::NotFound(Entity::Image))),
        },
        OperationView::GetImageMetadata { .. } => match found {
            Some(_) => finish(s, Ok(())),
            None => finish(s, Err(Error::NotFound(Entity::Image))),
        },
        _ => finish(s, Err(Error::InvalidState)),
    }
}

/// The local path that a download writes to.
pub open spec fn download_target(operation: OperationView) -> Option<Seq<char>> {
    match operation {
        OperationView::DownloadFile { local_path, .. } => Some(local_path),
        OperationView::DownloadImage { destination_path, .. } => Some(destination_path),
        _ => None,
    }
}

/// The step after the chunks have arrived: the file that they make up is
/// written. The download fails with `InvalidState` where the declared
/// size is beyond `limit`, the largest size that the machine addresses,
/// and with `ProtocolViolation` where the chunks are not a well-formed
/// transfer of the declared size.
pub open spec fn after_download(s: SessionView, chunks: Seq<ChunkView>, limit: nat) -> (
    SessionView,
    ActionView,
) {
    match download_target(s.operation) {
        Some(path) => if s.file_size > limit {
            finish(s, Err(Error::InvalidState))
        } else {
            match assemble(s.file_size, chunks) {
                Some(contents) => (
                    SessionView { stage: Stage::Writing, ..s },
                    ActionView::WriteFile { path, contents },
                ),
                None => finish(s, Err(Error::ProtocolViolation)),
            }
        },
        None => finish(s, Err(Error::InvalidState)),
    }
}

/// The step that session `s` takes on `event`, on a machine that
/// addresses files of up to `limit` bytes.
///
/// A failed action ends the command with the reason of the failure. A
/// file or an image that the node does not find ends it with `NotFound`.
/// An event that the stage does not wait for ends it with `InvalidState`.
pub open spec fn session_step(s: SessionView, event: EventView, limit: nat) -> (
    SessionView,
    ActionView,
) {
    match (s.stage, event) {
        (Stage::Finished, _) => finish(s, Err(Error::InvalidState)),
        (_, EventView::Failed(e)) => finish(s, Err(e)),
        (Stage::Reading, EventView::FileRead(contents)) => after_read(s, contents),
        (Stage::Declaring, EventView::FileMetadataCreated(file)) => after_file_declared(s, file),
        (Stage::Declaring, EventView::ImageCreated(image)) => after_image_declared(s, image),
        (Stage::Declaring, EventView::ImageFound(found)) => after_image_sought(s, found),
        (Stage::Uploading, EventView::Uploaded) => after_upload(s),
        (Stage::CreatingMachine, EventView::MachineCreated(machine)) => call(
            s,
            Stage::Provisioning,
            RequestView::ProvisionInstance { machine_id: machine.machine_id },
        ),
        (Stage::Provisioning, EventView::InstanceProvisioned(_)) => finish(s, Ok(())),
        (Stage::Looking, EventView::FileMetadataFound(found)) => after_file_found(s, found),
        (Stage::Looking, EventView::ImageFound(found)) => after_image_found(s, found),
        (Stage::Downloading, EventView::Downloaded(chunks)) => after_download(s, chunks, limit),
        (Stage::Writing, EventView::Done) => finish(s, Ok(())),
        (Stage::Calling, EventView::Done) => finish(s, Ok(())),
        _ => finish(s, Err(Error::InvalidState)),
    }
}

impl Session {
    /// Whether the command has ended.
    pub fn is_finished(&self) -> (done: bool)
        ensures
            done == (self@.stage == Stage::Finished),
    {
        match self.stage {
            Stage::Finished => true,
            _ => false,
        }
    }

    /// Begins the command `operation` and says what is due first.
    pub fn start(operation: Operation) -> (begun: (Session, Action))
        ensures
            (begun.0@, begun.1@) == session_start(operation@),
    {
        let (stage, action) = match &operation {
            Operation::ProvisionInstance { machine_id } => (
                Stage::Calling,
                Action::Call(Request::ProvisionInstance { machine_id: machine_id.clone() }),
            ),
            Operation::StopInstance { instance_id } => (
                Stage::Calling,
                Action::Call(Request::StopInstance { instance_id: instance_id.clone() }),
            ),
            Operation::StartInstance { instance_id } => (
                Stage::Calling,
                Action::Call(Request::StartInstance { instance_id: instance_id.clone() }),
            ),
            Operation::ListInstances => (Stage::Calling, Action::Call(Request::ListInstances)),
            Operation::CreateMachine { image_id, resources } => (
                Stage::Calling,
                Action::Call(
                    Request::CreateMachine { image_id: image_id.clone(), resources: *resources },
                ),
            ),
            Operation::ListMachines => (Stage::Calling, Action::Call(Request::ListMachines)),
            Operation::ListImageMetadata => (
                Stage::Calling,
                Action::Call(Request::ListImageMetadata),
            ),
            Operation::GetImageMetadata { image_id } => (
                Stage::Looking,
                Action::Call(Request::GetImageMetadata { image_id: image_id.clone() }),
            ),
            Operation::DownloadImage { image_id, destination_path } => (
                Stage::Looking,
                Action::Call(Request::GetImageMetadata { image_id: image_id.clone() }),
            ),
            Operation::DownloadFile { storage_path, local_path } => (
                Stage::Looking,
                Action::Call(Request::GetFileMetadata { file_path: storage_path.clone() }),
            ),
            Operation::UpLocalImage { resources, local_path, storage_path } => (
                Stage::Reading,
                Action::ReadFile { path: local_path.clone() },
            ),
            Operation::UploadFile { local_file_path, storage_file_path } => (
                Stage::Reading,
                Action::ReadFile { path: local_file_path.clone() },
            ),
            Operation::UploadImage { image_id, source_image_path, destination_image_path } => (
                Stage::Reading,
                Action::ReadFile { path: source_image_path.clone() },
            ),
        };
        (
            Session {
                operation,
                stage,
                contents: Vec::new(),
                file_size: 0,
                image_id: String::new(),
            },
            action,
        )
    }

    /// Ends the session with `outcome`.
    fn end(self, outcome: Result<(), Error>) -> (next: (Session, Action))
        ensures
            (next.0@, next.1@) == finish(self@, outcome),
    {
        let Session { operation, stage, contents, file_size, image_id } = self;
        (
            Session { operation, stage: Stage::Finished, contents, file_size, image_id },
            Action::Finish(outcome),
        )
    }

    /// Goes on to `stage` with the call `request`.
    fn proceed(self, stage: Stage, request: Request) -> (next: (Session, Action))
        ensures
            (next.0@, next.1@) == call(self@, stage, request@),
    {
        let Session { operation, stage: _, contents, file_size, image_id } = self;
        (Session { operation, stage, contents, file_size, image_id }, Action::Call(request))
    }

    /// Keeps what was read and asks the node to declare or find the file
    /// that is uploaded.
    fn read(self, contents: Vec<u8>) -> (next: (Session, Action))
        ensures
            (next.0@, next.1@) == after_read(self@, contents@),
    {
        let file_size: u64 = contents.len() as u64;
        let request = match &self.operation {
            Operation::UpLocalImage {
                resources,
                local_path,
                storage_path,
            } => Request::CreateImageMetadata {
                file_size,
                destination_file_path: storage_path.clone(),
            },
            Operation::UploadFile {
                local_file_path,
                storage_file_path,
            } => Request::CreateFileMetadata { file_path: storage_file_path.clone(), file_size },
            Operation::UploadImage {
                image_id: Some(image_id),
                source_image_path,
                destination_image_path,
            } => Request::GetImageMetadata { image_id: image_id.clone() },
            Operation::UploadImage {
                image_id: None,
                source_image_path,
                destination_image_path,
            } => Request::CreateImageMetadata {
                file_size,
                destination_file_path: destination_image_path.clone(),
            },
            _ => {
                return self.end(Err(Error::InvalidState));
            },
        };
        let Session { operation, stage, contents: _, file_size: size, image_id } = self;
        (
            Session { operation, stage: Stage::Declaring, contents, file_size: size, image_id },
            Action::Call(request),
        )
    }

    /// Sends what was read to the path of `file`.
    fn send(self, file: &FileMetadata, image_id: String) -> (next: (Session, Action))
        ensures
            (next.0@, next.1@) == upload(self@, file@, image_id@),
    {
        let Session { operation, stage, contents, file_size, image_id: _ } = self;
        let messages = stream_chunks(file, contents);
        (
            Session {
                operation,
                stage: Stage::Uploading,
                contents: Vec::new(),
                file_size,
                image_id,
            },
            Action::Call(Request::UploadFile { messages }),
        )
    }

    /// Goes on after the node has declared the file of an upload.
    fn file_declared(self, file: FileMetadata) -> (next: (Session, Action))
        ensures
            (next.0@, next.1@) == after_file_declared(self@, file@),
    {
        let expected = match &self.operation {
            Operation::UploadFile { local_file_path, storage_file_path } => true,
            _ => false,
        };
        if expected {
            let image_id = self.image_id.clone();
            self.send(&file, image_id)
        } else {
            self.end(Err(Error::InvalidState))
        }
    }

    /// Goes on after the node has declared the image of an upload.
    fn image_declared(self, image: OsImageMetadata) -> (next: (Session, Action))
        ensures
            (next.0@, next.1@) == after_image_declared(self@, image@),
    {
        let expected = match &self.operation {
            Operation::UpLocalImage { resources, local_path, storage_path } => true,
            Operation::UploadImage {
                image_id: None,
                source_image_path,
                destination_image_path,
            } => true,
            _ => false,
        };
        if expected {
            let OsImageMetadata { image_id, file_metadata } = image;
            self.send(&file_metadata, image_id)
        } else {
            self.end(Err(Error::InvalidState))
        }
    }

    /// Goes on after the node has looked for the image that an upload
    /// names.
    fn image_sought(self, found: Option<OsImageMetadata>) -> (next: (Session, Action))
        ensures
            (next.0@, next.1@) == after_image_sought(self@, found.deep_view()),
    {
        let expected = match &self.operation {
            Operation::UploadImage {
                image_id: Some(_),
                source_image_path,
                destination_image_path,
            } => true,
            _ => false,
        };
        if expected {
            match found {
                Some(image) => {
                    let OsImageMetadata { image_id, file_metadata } = image;
                    self.send(&file_metadata, image_id)
                },
                None => self.end(Err(Error::NotFound(Entity::Image))),
            }
        } else {
            self.end(Err(Error::InvalidState))
        }
    }

    /// Goes on after the node has taken the upload.
    fn uploaded(self) -> (next: (Session, Action))
        ensures
            (next.0@, next.1@) == after_upload(self@),
    {
        let machine = match &self.operation {
            Operation::UpLocalImage { resources, local_path, storage_path } => Some(*resources),
            _ => None,
        };
        match machine {
            Some(resources) => {
                let image_id = self.image_id.clone();
                self.proceed(Stage::CreatingMachine, Request::CreateMachine { image_id, resources })
            },
            None => self.end(Ok(())),
        }
    }

    /// Asks for the chunks of `file`.
    fn fetch(self, file: FileMetadata) -> (next: (Session, Action))
        ensures
            (next.0@, next.1@) == download(self@, file@),
    {
        let Session { operation, stage, contents, file_size: _, image_id } = self;
        (
            Session {
                operation,
                stage: Stage::Downloading,
                contents,
                file_size: file.file_size,
                image_id,
            },
            Action::Call(Request::DownloadFile { source_path: file.file_path }),
        )
    }

    /// Goes on after the node has looked for the file of a download.
    fn file_found(self, found: Option<FileMetadata>) -> (next: (Session, Action))
        ensures
            (next.0@, next.1@) == after_file_found(self@, found.deep_view()),
    {
        let expected = match &self.operation {
            Operation::DownloadFile { storage_path, local_path } => true,
            _ => false,
        };
        if expected {
            match found {
                Some(file) => self.fetch(file),
                None => self.end(Err(Error::NotFound(Entity::File))),
            }
        } else {
            self.end(Err(Error::InvalidState))
        }
    }

    /// Goes on after the node has looked for the image of a download, or
    /// for the image that is to be shown.
    fn image_found(self, found: Option<OsImageMetadata>) -> (next: (Session, Action))
        ensures
            (next.0@, next.1@) == after_image_found(self@, found.deep_view()),
    {
        let download = match &self.operation {
            Operation::DownloadImage { image_id, destination_path } => Some(true),
            Operation::GetImageMetadata { image_id } => Some(false),
            _ => None,
        };
        match (download, found) {
            (None, _) => self.end(Err(Error::InvalidState)),
            (Some(_), None) => self.end(Err(Error::NotFound(Entity::Image))),
            (Some(true), Some(image)) => self.fetch(image.file_metadata),
            (Some(false), Some(image)) => self.end(Ok(())),
        }
    }

    /// Goes on after the chunks have arrived.
    fn downloaded(self, chunks: Vec<Chunk>) -> (next: (Session, Action))
        ensures
            (next.0@, next.1@) == after_download(self@, chunks.deep_view(), usize::MAX as nat),
    {
        let target = match &self.operation {
            Operation::DownloadFile { storage_path, local_path } => Some(local_path.clone()),
            Operation::DownloadImage { image_id, destination_path } => Some(
                destination_path.clone(),
            ),
            _ => None,
        };
        match target {
            Some(path) => match assemble_chunks(self.file_size, &chunks) {
                Ok(file) => {
                    let Session { operation, stage, contents, file_size, image_id } = self;
                    (
                        Session { operation, stage: Stage::Writing, contents, file_size, image_id },
                        Action::WriteFile { path, contents: file },
                    )
                },
                Err(e) => self.end(Err(e)),
            },
            None => self.end(Err(Error::InvalidState)),
        }
    }

    /// Takes the outcome of the last action and says what is due next.
    pub fn step(self, event: Event) -> (next: (Session, Action))
        ensures
            (next.0@, next.1@) == session_step(self@, event@, usize::MAX as nat),
    {
        let stage = self.stage;
        match (stage, event) {
            (Stage::Finished, _) => self.end(Err(Error::InvalidState)),
            (_, Event::Failed(e)) => self.end(Err(e)),
            (Stage::Reading, Event::FileRead(contents)) => self.read(contents),
            (Stage::Declaring, Event::FileMetadataCreated(file)) => self.file_declared(file),
            (Stage::Declaring, Event::ImageCreated(image)) => self.image_declared(image),
            (Stage::Declaring, Event::ImageFound(found)) => self.image_sought(found),
            (Stage::Uploading, Event::Uploaded) => self.uploaded(),
            (Stage::CreatingMachine, Event::MachineCreated(machine)) => self.proceed(
                Stage::Provisioning,
                Request::ProvisionInstance { machine_id: machine.machine_id },
            ),
            (Stage::Provisioning, Event::InstanceProvisioned(_)) => self.end(Ok(())),
            (Stage::Looking, Event::FileMetadataFound(found)) => self.file_found(found),
            (Stage::Looking, Event::ImageFound(found)) => self.image_found(found),
            (Stage::Downloading, Event::Downloaded(chunks)) => self.downloaded(chunks),
            (Stage::Writing, Event::Done) => self.end(Ok(())),
            (Stage::Calling, Event::Done) => self.end(Ok(())),
            _ => self.end(Err(Error::InvalidState)),
        }
    }
}

} // verus!
