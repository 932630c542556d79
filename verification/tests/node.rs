use cloud::error::{Entity, Error};
use cloud::launcher::LaunchRequest;
use cloud::model::{InstanceState, Resources};
use cloud::node::{LocalDataCenter, Upload};
use cloud::transfer::{split_chunks, stream_chunks, Chunk, UploadFileRequest};

fn small() -> Resources {
    Resources { ram_mb: 256, disk_mb: 256, vcpus: 1 }
}

fn is_url_safe(id: &str) -> bool {
    id.chars().all(|c| c.is_ascii_alphanumeric() || c == '_' || c == '-')
}

#[test]
fn node_reports_fixed_resources() {
    let node = LocalDataCenter::new();
    assert_eq!(node.check_resource(), Resources { ram_mb: 512, disk_mb: 512, vcpus: 1 });
}

#[test]
fn file_metadata_is_stored_under_its_path() {
    let mut node = LocalDataCenter::new();
    let created = node.create_file_metadata(String::from("/img/x.qcow2"), 10_000_000);
    assert_eq!(created.file_path, "/img/x.qcow2");
    assert_eq!(created.file_size, 10_000_000);
    assert_eq!(created.version, 0);
    assert_eq!(node.get_file_metadata(&String::from("/img/x.qcow2")), Some(created));
    assert_eq!(node.get_file_metadata(&String::from("/img/y.qcow2")), None);
}

#[test]
fn file_metadata_is_replaced_by_a_later_declaration() {
    let mut node = LocalDataCenter::new();
    node.create_file_metadata(String::from("/a"), 1);
    node.create_file_metadata(String::from("/b"), 2);
    let again = node.create_file_metadata(String::from("/a"), 3);
    assert_eq!(node.get_file_metadata(&String::from("/a")), Some(again));
    assert_eq!(node.get_file_metadata(&String::from("/b")).unwrap().file_size, 2);
}

#[test]
fn reads_do_not_change_what_is_read() {
    let mut node = LocalDataCenter::new();
    node.create_file_metadata(String::from("/a"), 1);
    let image = node.create_image_metadata(5, String::from("/img"));
    node.create_machine(&image.image_id, small()).unwrap();
    let path = String::from("/a");
    assert_eq!(node.get_file_metadata(&path), node.get_file_metadata(&path));
    assert_eq!(node.get_image_metadata(&image.image_id), node.get_image_metadata(&image.image_id));
    assert_eq!(node.list_image_metadata(), node.list_image_metadata());
    assert_eq!(node.list_machines(), node.list_machines());
    assert_eq!(node.list_instances(), node.list_instances());
}

#[test]
fn image_declares_its_file_first() {
    let mut node = LocalDataCenter::new();
    let image = node.create_image_metadata(42, String::from("/img/a"));
    assert_eq!(image.file_metadata.file_path, "/img/a");
    assert_eq!(image.file_metadata.file_size, 42);
    assert_eq!(node.get_file_metadata(&String::from("/img/a")), Some(image.file_metadata.clone()));
    assert_eq!(node.get_image_metadata(&image.image_id), Some(image.clone()));
    assert_eq!(node.list_image_metadata(), vec![image]);
}

#[test]
fn random_identifiers_have_21_url_safe_symbols() {
    let mut node = LocalDataCenter::new();
    let image = node.create_image_metadata(1, String::from("/img/a"));
    assert_eq!(image.image_id.chars().count(), 21);
    assert!(is_url_safe(&image.image_id));
    let machine = node.create_machine(&image.image_id, small()).unwrap();
    assert_eq!(machine.machine_id.chars().count(), 21);
    assert!(is_url_safe(&machine.machine_id));
    let instance = node.provision_instance(&machine.machine_id, 7).unwrap();
    assert_eq!(instance.instance_id.chars().count(), 21);
    assert!(is_url_safe(&instance.instance_id));
}

#[test]
fn identifiers_are_never_assigned_twice() {
    let mut node = LocalDataCenter::new();
    let mut seen: Vec<String> = Vec::new();
    for round in 0..20 {
        let image = node.create_image_metadata(round, String::from("/img/a"));
        let machine = node.create_machine(&image.image_id, small()).unwrap();
        let instance = node.provision_instance(&machine.machine_id, 1).unwrap();
        for id in [image.image_id, machine.machine_id, instance.instance_id] {
            assert!(!seen.contains(&id));
            seen.push(id);
        }
    }
    assert_eq!(seen.len(), 60);
}

#[test]
fn taken_candidate_is_lengthened_until_it_is_free() {
    let mut node = LocalDataCenter::new();
    let first = node.create_image_metadata_with_candidate(String::from("id"), 1, String::from("/a"));
    assert_eq!(first.image_id, "id");
    let second =
        node.create_image_metadata_with_candidate(String::from("id"), 1, String::from("/b"));
    assert_eq!(second.image_id, "id0");
    let machine = node.create_machine_with_candidate(String::from("id"), &first.image_id, small());
    assert_eq!(machine.unwrap().machine_id, "id00");
    let other = node.create_machine_with_candidate(String::from("id0"), &first.image_id, small());
    assert_eq!(other.unwrap().machine_id, "id000");
    assert_eq!(node.list_image_metadata().len(), 2);
    assert_eq!(node.list_machines().len(), 2);
}

#[test]
fn machine_holds_the_image_it_was_made_from() {
    let mut node = LocalDataCenter::new();
    let image = node.create_image_metadata(5, String::from("/img/a"));
    let machine = node.create_machine(&image.image_id, small()).unwrap();
    assert_eq!(machine.resources, small());
    assert_eq!(machine.image_metadata, image);
    assert_eq!(node.list_machines(), vec![machine]);
}

#[test]
fn machine_of_unknown_image_is_not_found() {
    let mut node = LocalDataCenter::new();
    let made = node.create_machine(&String::from("nope"), small());
    assert_eq!(made, Err(Error::NotFound(Entity::Image)));
    assert!(node.list_machines().is_empty());
}

#[test]
fn listings_keep_the_order_of_creation() {
    let mut node = LocalDataCenter::new();
    let a = node.create_image_metadata_with_candidate(String::from("b"), 1, String::from("/1"));
    let b = node.create_image_metadata_with_candidate(String::from("a"), 2, String::from("/2"));
    let c = node.create_image_metadata_with_candidate(String::from("c"), 3, String::from("/3"));
    assert_eq!(node.list_image_metadata(), vec![a, b, c]);
}

#[test]
fn launch_request_names_resources_and_disk_image() {
    let mut node = LocalDataCenter::new();
    let image = node.create_image_metadata(5, String::from("/img/a.qcow2"));
    let machine = node.create_machine(&image.image_id, small()).unwrap();
    let request = node.launch_request_for_machine(&machine.machine_id);
    let expected =
        LaunchRequest { resources: small(), disk_image_path: String::from("/img/a.qcow2") };
    assert_eq!(request, Ok(expected));
    let missing = node.launch_request_for_machine(&String::from("nope"));
    assert_eq!(missing, Err(Error::NotFound(Entity::Machine)));
}

#[test]
fn provisioned_instance_is_started_and_has_its_process() {
    let mut node = LocalDataCenter::new();
    let image = node.create_image_metadata(5, String::from("/img/a"));
    let machine = node.create_machine(&image.image_id, small()).unwrap();
    let instance = node.provision_instance(&machine.machine_id, 4711).unwrap();
    assert_eq!(instance.state, InstanceState::Started);
    assert_eq!(instance.process_id, 4711);
    assert_eq!(instance.ip_address, "192.168.0.1");
    assert_eq!(instance.machine, machine);
    assert_eq!(node.list_instances(), vec![instance]);
}

#[test]
fn instance_of_unknown_machine_is_not_found() {
    let mut node = LocalDataCenter::new();
    let made = node.provision_instance(&String::from("nope"), 1);
    assert_eq!(made, Err(Error::NotFound(Entity::Machine)));
    assert!(node.list_instances().is_empty());
}

#[test]
fn lifecycle_of_an_instance() {
    let mut node = LocalDataCenter::new();
    let image = node.create_image_metadata(5, String::from("/img/a"));
    let machine = node.create_machine(&image.image_id, small()).unwrap();
    let instance = node.provision_instance(&machine.machine_id, 100).unwrap();
    let id = instance.instance_id.clone();

    assert_eq!(node.stop_instance(&id), Ok(Some(100)));
    let stopped = node.list_instances();
    assert_eq!(stopped[0].state, InstanceState::Stopped);
    assert_eq!(stopped[0].instance_id, id);

    let request = node.launch_request_for_instance(&id).unwrap();
    assert_eq!(request.disk_image_path, "/img/a");
    let restart = node.start_instance(&id, 200).unwrap();
    assert_eq!(restart.replaced, None);
    assert_eq!(restart.instance.state, InstanceState::Started);
    assert_eq!(restart.instance.process_id, 200);
    assert_eq!(restart.instance.machine, machine);
    assert_eq!(node.list_instances(), vec![restart.instance]);
    assert_eq!(node.stop_instance(&id), Ok(Some(200)));
}

#[test]
fn stopping_a_stopped_instance_hands_out_no_process() {
    let mut node = LocalDataCenter::new();
    let image = node.create_image_metadata(5, String::from("/img/a"));
    let machine = node.create_machine(&image.image_id, small()).unwrap();
    let instance = node.provision_instance(&machine.machine_id, 100).unwrap();
    assert_eq!(node.stop_instance(&instance.instance_id), Ok(Some(100)));
    assert_eq!(node.stop_instance(&instance.instance_id), Ok(None));
    assert_eq!(node.list_instances()[0].state, InstanceState::Stopped);
}

#[test]
fn starting_a_started_instance_hands_out_the_process_it_replaces() {
    let mut node = LocalDataCenter::new();
    let image = node.create_image_metadata(5, String::from("/img/a"));
    let machine = node.create_machine(&image.image_id, small()).unwrap();
    let instance = node.provision_instance(&machine.machine_id, 100).unwrap();
    let restart = node.start_instance(&instance.instance_id, 200).unwrap();
    assert_eq!(restart.replaced, Some(100));
    assert_eq!(restart.instance.process_id, 200);
    assert_eq!(node.list_instances().len(), 1);
    assert_eq!(node.stop_instance(&instance.instance_id), Ok(Some(200)));
}

#[test]
fn unknown_instance_is_not_found() {
    let mut node = LocalDataCenter::new();
    let id = String::from("nope");
    assert_eq!(node.launch_request_for_instance(&id), Err(Error::NotFound(Entity::Instance)));
    assert_eq!(node.start_instance(&id, 1), Err(Error::NotFound(Entity::Instance)));
    assert_eq!(node.stop_instance(&id), Err(Error::NotFound(Entity::Instance)));
}

#[test]
fn upload_then_download_reproduces_the_file() {
    let mut node = LocalDataCenter::new();
    let data: Vec<u8> = (0..10_000usize).map(|i| (i % 251) as u8).collect();
    let metadata = node.create_file_metadata(String::from("/img/x.qcow2"), data.len() as u64);
    let uploaded = node.upload_file(&stream_chunks(&metadata, data.clone())).unwrap();
    assert_eq!(uploaded.file_path, "/img/x.qcow2");
    assert_eq!(uploaded.bytes_written, 10_000);
    assert_eq!(uploaded.contents, data);
    let chunks = node.download_file(&String::from("/img/x.qcow2"), &uploaded.contents).unwrap();
    assert_eq!(chunks.len(), 3);
    let received: Vec<u8> = chunks.iter().flat_map(|chunk| chunk.data.clone()).collect();
    assert_eq!(received, data);
}

fn requests(path: &str, data: &Vec<u8>, block: usize) -> Vec<UploadFileRequest> {
    split_chunks(data, block)
        .into_iter()
        .map(|chunk| UploadFileRequest { file_path: String::from(path), chunk })
        .collect()
}

#[test]
fn upload_in_blocks_of_4096_then_download_of_ten_million_bytes() {
    let mut node = LocalDataCenter::new();
    let size: usize = 10_000_000;
    let data: Vec<u8> = (0..size).map(|i| (i % 253) as u8).collect();
    node.create_file_metadata(String::from("/img/x.qcow2"), 10_000_000);
    let uploaded = node.upload_file(&requests("/img/x.qcow2", &data, 4096)).unwrap();
    assert_eq!(uploaded.bytes_written, 10_000_000);
    let chunks = node.download_file(&String::from("/img/x.qcow2"), &uploaded.contents).unwrap();
    let mut offset: u64 = 0;
    for chunk in &chunks {
        assert_eq!(chunk.start, offset);
        assert_eq!(chunk.end - chunk.start, chunk.data.len() as u64);
        offset = chunk.end;
    }
    assert_eq!(offset, 10_000_000);
    let received: Vec<u8> = chunks.into_iter().flat_map(|chunk| chunk.data).collect();
    assert_eq!(received, data);
}

#[test]
fn upload_without_message_is_refused() {
    let node = LocalDataCenter::new();
    assert_eq!(node.upload_file(&Vec::new()), Err(Error::InvalidState));
}

#[test]
fn upload_to_undeclared_path_is_refused() {
    let node = LocalDataCenter::new();
    let outcome = node.upload_file(&requests("/nope", &vec![1, 2, 3], 2));
    assert_eq!(outcome, Err(Error::InvalidState));
}

#[test]
fn upload_beyond_declared_size_is_refused() {
    let mut node = LocalDataCenter::new();
    node.create_file_metadata(String::from("/a"), 2);
    let outcome = node.upload_file(&requests("/a", &vec![1, 2, 3], 2));
    assert_eq!(outcome, Err(Error::ProtocolViolation));
}

#[test]
fn upload_that_ends_early_is_refused() {
    let mut node = LocalDataCenter::new();
    node.create_file_metadata(String::from("/a"), 4);
    let outcome = node.upload_file(&requests("/a", &vec![1, 2, 3], 2));
    assert_eq!(outcome, Err(Error::ProtocolViolation));
}

#[test]
fn upload_out_of_order_is_refused() {
    let mut node = LocalDataCenter::new();
    node.create_file_metadata(String::from("/a"), 4);
    let messages = vec![
        UploadFileRequest {
            file_path: String::from("/a"),
            chunk: Chunk { start: 2, end: 4, data: vec![3, 4] },
        },
        UploadFileRequest {
            file_path: String::from("/a"),
            chunk: Chunk { start: 0, end: 2, data: vec![1, 2] },
        },
    ];
    assert_eq!(node.upload_file(&messages), Err(Error::ProtocolViolation));
}

#[test]
fn download_of_undeclared_path_is_refused() {
    let node = LocalDataCenter::new();
    let outcome = node.download_file(&String::from("/nope"), &vec![1, 2, 3]);
    assert_eq!(outcome, Err(Error::InvalidState));
}

#[test]
fn download_of_truncated_file_is_an_io_failure() {
    let mut node = LocalDataCenter::new();
    node.create_file_metadata(String::from("/a"), 4);
    let outcome = node.download_file(&String::from("/a"), &vec![1, 2, 3]);
    assert_eq!(outcome, Err(Error::IoFailure));
}

#[test]
fn download_stops_at_the_declared_size() {
    let mut node = LocalDataCenter::new();
    node.create_file_metadata(String::from("/a"), 2);
    let chunks = node.download_file(&String::from("/a"), &vec![1, 2, 3]).unwrap();
    assert_eq!(chunks.len(), 1);
    assert_eq!((chunks[0].start, chunks[0].end), (0, 2));
    assert_eq!(chunks[0].data, vec![1, 2]);
}

fn message(path: &str, start: u64, data: &[u8]) -> UploadFileRequest {
    UploadFileRequest {
        file_path: String::from(path),
        chunk: Chunk { start, end: start + data.len() as u64, data: data.to_vec() },
    }
}

#[test]
fn upload_takes_its_messages_one_by_one() {
    let mut node = LocalDataCenter::new();
    node.create_file_metadata(String::from("/a"), 5);
    let mut upload = Upload::new();
    assert_eq!(upload.receive(&node, &message("/a", 0, &[1, 2])), Ok(()));
    assert_eq!(upload.receive(&node, &message("/a", 2, &[3, 4, 5])), Ok(()));
    let uploaded = upload.finish().unwrap();
    assert_eq!(uploaded.file_path, "/a");
    assert_eq!(uploaded.contents, vec![1, 2, 3, 4, 5]);
    assert_eq!(uploaded.bytes_written, 5);
}

#[test]
fn upload_names_its_file_with_the_first_message() {
    let mut node = LocalDataCenter::new();
    node.create_file_metadata(String::from("/a"), 4);
    let mut upload = Upload::new();
    assert_eq!(upload.receive(&node, &message("/a", 0, &[1, 2])), Ok(()));
    assert_eq!(upload.receive(&node, &message("/elsewhere", 2, &[3, 4])), Ok(()));
    assert_eq!(upload.finish().unwrap().file_path, "/a");
}

#[test]
fn upload_refuses_a_message_and_stays_as_it_was() {
    let mut node = LocalDataCenter::new();
    node.create_file_metadata(String::from("/a"), 4);
    let mut upload = Upload::new();
    assert_eq!(upload.receive(&node, &message("/nope", 0, &[1, 2])), Err(Error::InvalidState));
    assert_eq!(upload.receive(&node, &message("/a", 1, &[1, 2])), Err(Error::ProtocolViolation));
    assert_eq!(upload.receive(&node, &message("/a", 0, &[1, 2])), Ok(()));
    assert_eq!(upload.receive(&node, &message("/a", 3, &[4])), Err(Error::ProtocolViolation));
    assert_eq!(upload.receive(&node, &message("/a", 2, &[3, 4, 5])), Err(Error::ProtocolViolation));
    assert_eq!(upload.receive(&node, &message("/a", 2, &[3, 4])), Ok(()));
    assert_eq!(upload.finish().unwrap().contents, vec![1, 2, 3, 4]);
}

#[test]
fn upload_that_ends_before_its_first_or_last_message_is_refused() {
    let mut node = LocalDataCenter::new();
    node.create_file_metadata(String::from("/a"), 4);
    assert_eq!(Upload::new().finish(), Err(Error::InvalidState));
    let mut upload = Upload::new();
    assert_eq!(upload.receive(&node, &message("/a", 0, &[1, 2])), Ok(()));
    assert_eq!(upload.finish(), Err(Error::ProtocolViolation));
}

#[test]
fn default_node_holds_nothing() {
    let node = LocalDataCenter::default();
    assert!(node.list_image_metadata().is_empty());
    assert!(node.list_machines().is_empty());
    assert!(node.list_instances().is_empty());
    assert_eq!(node.get_file_metadata(&String::from("/a")), None);
}
