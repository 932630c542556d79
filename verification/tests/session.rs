use cloud::client::Operation;
use cloud::error::{Entity, Error};
use cloud::model::{FileMetadata, Instance, InstanceState, Machine, OsImageMetadata, Resources};
use cloud::node::LocalDataCenter;
use cloud::session::{Action, Event, Request, Session};
use cloud::transfer::{split_chunks, Chunk, UploadFileRequest};

fn text(s: &str) -> String {
    String::from(s)
}

fn resources() -> Resources {
    Resources { ram_mb: 256, disk_mb: 256, vcpus: 1 }
}

fn file(path: &str, size: u64) -> FileMetadata {
    FileMetadata { file_path: text(path), file_size: size, version: 0 }
}

fn image(id: &str, path: &str, size: u64) -> OsImageMetadata {
    OsImageMetadata { image_id: text(id), file_metadata: file(path, size) }
}

fn whole(path: &str, data: &[u8]) -> Vec<UploadFileRequest> {
    vec![UploadFileRequest {
        file_path: text(path),
        chunk: Chunk { start: 0, end: data.len() as u64, data: data.to_vec() },
    }]
}

#[test]
fn command_of_one_call_ends_after_the_call() {
    let cases = vec![
        (
            Operation::ProvisionInstance { machine_id: text("m") },
            Request::ProvisionInstance { machine_id: text("m") },
        ),
        (
            Operation::StopInstance { instance_id: text("i") },
            Request::StopInstance { instance_id: text("i") },
        ),
        (
            Operation::StartInstance { instance_id: text("i") },
            Request::StartInstance { instance_id: text("i") },
        ),
        (Operation::ListInstances, Request::ListInstances),
        (
            Operation::CreateMachine { image_id: text("img"), resources: resources() },
            Request::CreateMachine { image_id: text("img"), resources: resources() },
        ),
        (Operation::ListMachines, Request::ListMachines),
        (Operation::ListImageMetadata, Request::ListImageMetadata),
    ];
    for (operation, request) in cases {
        let (session, action) = Session::start(operation);
        assert_eq!(action, Action::Call(request));
        assert!(!session.is_finished());
        let (session, action) = session.step(Event::Done);
        assert_eq!(action, Action::Finish(Ok(())));
        assert!(session.is_finished());
    }
}

#[test]
fn failed_action_ends_the_command_with_its_reason() {
    let (session, _) = Session::start(Operation::ListMachines);
    let (session, action) = session.step(Event::Failed(Error::UpstreamUnavailable));
    assert_eq!(action, Action::Finish(Err(Error::UpstreamUnavailable)));
    assert!(session.is_finished());

    let operation =
        Operation::UploadFile { local_file_path: text("a"), storage_file_path: text("/b") };
    let (session, _) = Session::start(operation);
    let (_, action) = session.step(Event::Failed(Error::IoFailure));
    assert_eq!(action, Action::Finish(Err(Error::IoFailure)));
}

#[test]
fn event_out_of_turn_ends_the_command_as_invalid() {
    let (session, _) = Session::start(Operation::ListMachines);
    let (session, action) = session.step(Event::Uploaded);
    assert_eq!(action, Action::Finish(Err(Error::InvalidState)));
    let (_, action) = session.step(Event::Done);
    assert_eq!(action, Action::Finish(Err(Error::InvalidState)));

    let operation = Operation::DownloadFile { storage_path: text("/b"), local_path: text("a") };
    let (session, _) = Session::start(operation);
    let (_, action) = session.step(Event::ImageFound(None));
    assert_eq!(action, Action::Finish(Err(Error::InvalidState)));
}

#[test]
fn upload_of_a_file_declares_it_and_sends_it() {
    let operation =
        Operation::UploadFile { local_file_path: text("a"), storage_file_path: text("/b") };
    let (session, action) = Session::start(operation);
    assert_eq!(action, Action::ReadFile { path: text("a") });
    let (session, action) = session.step(Event::FileRead(vec![1, 2, 3]));
    let declare = Request::CreateFileMetadata { file_path: text("/b"), file_size: 3 };
    assert_eq!(action, Action::Call(declare));
    let (session, action) = session.step(Event::FileMetadataCreated(file("/b", 3)));
    assert_eq!(action, Action::Call(Request::UploadFile { messages: whole("/b", &[1, 2, 3]) }));
    let (session, action) = session.step(Event::Uploaded);
    assert_eq!(action, Action::Finish(Ok(())));
    assert!(session.is_finished());
}

#[test]
fn upload_of_a_new_image_declares_the_image() {
    let operation = Operation::UploadImage {
        image_id: None,
        source_image_path: text("a"),
        destination_image_path: text("/img/a"),
    };
    let (session, action) = Session::start(operation);
    assert_eq!(action, Action::ReadFile { path: text("a") });
    let (session, action) = session.step(Event::FileRead(vec![7; 5]));
    let declare = Request::CreateImageMetadata { file_size: 5, destination_file_path: text("/img/a") };
    assert_eq!(action, Action::Call(declare));
    let (session, action) = session.step(Event::ImageCreated(image("img", "/img/a", 5)));
    assert_eq!(action, Action::Call(Request::UploadFile { messages: whole("/img/a", &[7; 5]) }));
    let (_, action) = session.step(Event::Uploaded);
    assert_eq!(action, Action::Finish(Ok(())));
}

#[test]
fn upload_of_a_known_image_goes_to_the_file_of_the_image() {
    let operation = || Operation::UploadImage {
        image_id: Some(text("img")),
        source_image_path: text("a"),
        destination_image_path: text("/ignored"),
    };
    let (session, _) = Session::start(operation());
    let (session, action) = session.step(Event::FileRead(vec![9; 2]));
    assert_eq!(action, Action::Call(Request::GetImageMetadata { image_id: text("img") }));
    let (session, action) = session.step(Event::ImageFound(Some(image("img", "/img/old", 2))));
    assert_eq!(action, Action::Call(Request::UploadFile { messages: whole("/img/old", &[9; 2]) }));
    let (_, action) = session.step(Event::Uploaded);
    assert_eq!(action, Action::Finish(Ok(())));

    let (session, _) = Session::start(operation());
    let (session, _) = session.step(Event::FileRead(vec![9; 2]));
    let (_, action) = session.step(Event::ImageFound(None));
    assert_eq!(action, Action::Finish(Err(Error::NotFound(Entity::Image))));
}

#[test]
fn up_uploads_the_image_makes_a_machine_and_provisions_an_instance() {
    let operation = Operation::UpLocalImage {
        resources: resources(),
        local_path: text("a.qcow2"),
        storage_path: text("/img/a.qcow2"),
    };
    let (session, action) = Session::start(operation);
    assert_eq!(action, Action::ReadFile { path: text("a.qcow2") });
    let (session, action) = session.step(Event::FileRead(vec![1, 2]));
    let declare =
        Request::CreateImageMetadata { file_size: 2, destination_file_path: text("/img/a.qcow2") };
    assert_eq!(action, Action::Call(declare));
    let created = image("img-1", "/img/a.qcow2", 2);
    let (session, action) = session.step(Event::ImageCreated(created.clone()));
    assert_eq!(action, Action::Call(Request::UploadFile { messages: whole("/img/a.qcow2", &[1, 2]) }));
    let (session, action) = session.step(Event::Uploaded);
    let make = Request::CreateMachine { image_id: text("img-1"), resources: resources() };
    assert_eq!(action, Action::Call(make));
    let machine =
        Machine { machine_id: text("m-1"), resources: resources(), image_metadata: created };
    let (session, action) = session.step(Event::MachineCreated(machine.clone()));
    assert_eq!(action, Action::Call(Request::ProvisionInstance { machine_id: text("m-1") }));
    let instance = Instance {
        instance_id: text("i-1"),
        process_id: 1,
        ip_address: text("192.168.0.1"),
        machine,
        state: InstanceState::Started,
    };
    let (session, action) = session.step(Event::InstanceProvisioned(instance));
    assert_eq!(action, Action::Finish(Ok(())));
    assert!(session.is_finished());
}

#[test]
fn download_of_a_file_writes_what_the_chunks_make_up() {
    let operation = Operation::DownloadFile { storage_path: text("/b"), local_path: text("a") };
    let (session, action) = Session::start(operation);
    assert_eq!(action, Action::Call(Request::GetFileMetadata { file_path: text("/b") }));
    let (session, action) = session.step(Event::FileMetadataFound(Some(file("/b", 5))));
    assert_eq!(action, Action::Call(Request::DownloadFile { source_path: text("/b") }));
    let data = vec![1, 2, 3, 4, 5];
    let (session, action) = session.step(Event::Downloaded(split_chunks(&data, 2)));
    assert_eq!(action, Action::WriteFile { path: text("a"), contents: data });
    let (session, action) = session.step(Event::Done);
    assert_eq!(action, Action::Finish(Ok(())));
    assert!(session.is_finished());
}

#[test]
fn download_of_an_undeclared_file_is_not_found() {
    let operation = Operation::DownloadFile { storage_path: text("/b"), local_path: text("a") };
    let (session, _) = Session::start(operation);
    let (_, action) = session.step(Event::FileMetadataFound(None));
    assert_eq!(action, Action::Finish(Err(Error::NotFound(Entity::File))));
}

#[test]
fn download_with_chunks_that_are_no_transfer_is_refused() {
    let operation = || Operation::DownloadFile { storage_path: text("/b"), local_path: text("a") };
    let (session, _) = Session::start(operation());
    let (session, _) = session.step(Event::FileMetadataFound(Some(file("/b", 5))));
    let inclusive_end = vec![Chunk { start: 0, end: 4, data: vec![1, 2, 3, 4, 5] }];
    let (_, action) = session.step(Event::Downloaded(inclusive_end));
    assert_eq!(action, Action::Finish(Err(Error::ProtocolViolation)));

    let (session, _) = Session::start(operation());
    let (session, _) = session.step(Event::FileMetadataFound(Some(file("/b", 5))));
    let (_, action) = session.step(Event::Downloaded(split_chunks(&vec![1, 2, 3], 2)));
    assert_eq!(action, Action::Finish(Err(Error::ProtocolViolation)));
}

#[test]
fn download_of_an_image_takes_the_file_of_the_image() {
    let operation = || Operation::DownloadImage { image_id: text("img"), destination_path: text("a") };
    let (session, action) = Session::start(operation());
    assert_eq!(action, Action::Call(Request::GetImageMetadata { image_id: text("img") }));
    let (session, action) = session.step(Event::ImageFound(Some(image("img", "/img/a", 3))));
    assert_eq!(action, Action::Call(Request::DownloadFile { source_path: text("/img/a") }));
    let data = vec![4, 5, 6];
    let (session, action) = session.step(Event::Downloaded(split_chunks(&data, 4096)));
    assert_eq!(action, Action::WriteFile { path: text("a"), contents: data });
    let (_, action) = session.step(Event::Done);
    assert_eq!(action, Action::Finish(Ok(())));

    let (session, _) = Session::start(operation());
    let (_, action) = session.step(Event::ImageFound(None));
    assert_eq!(action, Action::Finish(Err(Error::NotFound(Entity::Image))));
}

#[test]
fn image_that_is_asked_for_is_found_or_not() {
    let operation = || Operation::GetImageMetadata { image_id: text("img") };
    let (session, action) = Session::start(operation());
    assert_eq!(action, Action::Call(Request::GetImageMetadata { image_id: text("img") }));
    let (_, action) = session.step(Event::ImageFound(Some(image("img", "/img/a", 3))));
    assert_eq!(action, Action::Finish(Ok(())));
    let (session, _) = Session::start(operation());
    let (_, action) = session.step(Event::ImageFound(None));
    assert_eq!(action, Action::Finish(Err(Error::NotFound(Entity::Image))));
}

fn serve(node: &mut LocalDataCenter, stored: &mut Vec<u8>, request: Request) -> Event {
    match request {
        Request::CreateFileMetadata { file_path, file_size } => {
            Event::FileMetadataCreated(node.create_file_metadata(file_path, file_size))
        }
        Request::GetFileMetadata { file_path } => {
            Event::FileMetadataFound(node.get_file_metadata(&file_path))
        }
        Request::UploadFile { messages } => match node.upload_file(&messages) {
            Ok(uploaded) => {
                *stored = uploaded.contents;
                Event::Uploaded
            }
            Err(e) => Event::Failed(e),
        },
        Request::DownloadFile { source_path } => match node.download_file(&source_path, stored) {
            Ok(chunks) => Event::Downloaded(chunks),
            Err(e) => Event::Failed(e),
        },
        _ => Event::Failed(Error::InvalidState),
    }
}

fn run(node: &mut LocalDataCenter, stored: &mut Vec<u8>, local: &mut Vec<u8>, operation: Operation) {
    let (mut session, mut action) = Session::start(operation);
    loop {
        let event = match action {
            Action::ReadFile { .. } => Event::FileRead(local.clone()),
            Action::WriteFile { contents, .. } => {
                *local = contents;
                Event::Done
            }
            Action::Call(request) => serve(node, stored, request),
            Action::Finish(outcome) => {
                assert_eq!(outcome, Ok(()));
                return;
            }
        };
        let next = session.step(event);
        session = next.0;
        action = next.1;
    }
}

#[test]
fn uploading_then_downloading_through_sessions_reproduces_the_file() {
    let mut node = LocalDataCenter::new();
    let mut stored: Vec<u8> = Vec::new();
    let source: Vec<u8> = (0..3_000_000usize).map(|i| (i % 241) as u8).collect();
    let mut local = source.clone();
    let upload =
        Operation::UploadFile { local_file_path: text("a"), storage_file_path: text("/img/a") };
    run(&mut node, &mut stored, &mut local, upload);
    assert_eq!(stored, source);
    local.clear();
    let download = Operation::DownloadFile { storage_path: text("/img/a"), local_path: text("b") };
    run(&mut node, &mut stored, &mut local, download);
    assert_eq!(local, source);
}
