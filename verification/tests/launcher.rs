use cloud::launcher::{decimal_string, launch_command, launch_request, LaunchRequest};
use cloud::model::{FileMetadata, Machine, OsImageMetadata, Resources};

fn machine(ram_mb: u32, path: &str) -> Machine {
    Machine {
        machine_id: String::from("m"),
        resources: Resources { ram_mb, disk_mb: 10, vcpus: 2 },
        image_metadata: OsImageMetadata {
            image_id: String::from("i"),
            file_metadata: FileMetadata { file_path: String::from(path), file_size: 1, version: 0 },
        },
    }
}

#[test]
fn numbers_are_written_in_decimal() {
    assert_eq!(decimal_string(0), "0");
    assert_eq!(decimal_string(7), "7");
    assert_eq!(decimal_string(10), "10");
    assert_eq!(decimal_string(4096), "4096");
    assert_eq!(decimal_string(1234567890), "1234567890");
    assert_eq!(decimal_string(u32::MAX), "4294967295");
}

#[test]
fn launch_request_takes_resources_and_image_path() {
    let request = launch_request(&machine(2048, "/img/a.qcow2"));
    assert_eq!(request.resources, Resources { ram_mb: 2048, disk_mb: 10, vcpus: 2 });
    assert_eq!(request.disk_image_path, "/img/a.qcow2");
}

#[test]
fn command_line_of_the_hypervisor() {
    let request = LaunchRequest {
        resources: Resources { ram_mb: 4096, disk_mb: 10, vcpus: 2 },
        disk_image_path: String::from("/isos/ubuntu2004.qcow2"),
    };
    let command = launch_command(&request);
    assert_eq!(command.program, "qemu-system-x86_64");
    let expected = vec![
        "-accel",
        "hvf",
        "-cpu",
        "host,-rdtscp",
        "-smp",
        "2",
        "-m",
        "4G",
        "-device",
        "usb-tablet",
        "-nographic",
        "-usb",
        "-device",
        "virtio-net,netdev=vmnic",
        "-netdev",
        "user,id=vmnic,hostfwd=tcp::9001-:22",
        "-drive",
        "file=/isos/ubuntu2004.qcow2,if=virtio",
    ];
    assert_eq!(command.arguments, expected);
}

#[test]
fn memory_is_given_in_whole_gigabytes_rounded_down() {
    let memory = |ram_mb: u32| {
        let request = launch_request(&machine(ram_mb, "/a"));
        launch_command(&request).arguments[7].clone()
    };
    assert_eq!(memory(512), "0G");
    assert_eq!(memory(1024), "1G");
    assert_eq!(memory(2047), "1G");
    assert_eq!(memory(10240), "10G");
}
