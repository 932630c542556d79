//! What the launcher of virtual machines is asked for.
//!
//! The launcher itself is outside this crate: it takes a
//! [`LaunchRequest`], starts a hypervisor process and reports the number
//! of that process. [`launch_arguments`] gives the command line of the
//! hypervisor for a request.

use vstd::prelude::*;
use vstd::string::*;
use crate::model::{Machine, MachineView, Resources};

verus! {

/// The inputs of a launch: the resources of the virtual machine and the
/// path of its disk image.
#[derive(Debug, PartialEq, Eq)]
pub struct LaunchRequest {
    pub resources: Resources,
    pub disk_image_path: String,
}

/// The mathematical content of a [`LaunchRequest`].
pub struct LaunchRequestView {
    pub resources: Resources,
    pub disk_image_path: Seq<char>,
}

impl View for LaunchRequest {
    type V = LaunchRequestView;

    open spec fn view(&self) -> LaunchRequestView {
        LaunchRequestView { resources: self.resources, disk_image_path: self.disk_image_path@ }
    }
}

impl DeepView for LaunchRequest {
    type V = LaunchRequestView;

    open spec fn deep_view(&self) -> LaunchRequestView {
        self@
    }
}

/// The launch that runs `machine`: its resources, and the file of its
/// image as the disk.
pub open spec fn launch_of(machine: MachineView) -> LaunchRequestView {
    LaunchRequestView {
        resources: machine.resources,
        disk_image_path: machine.image_metadata.file_metadata.file_path,
    }
}

/// The launch that runs `machine`.
pub fn launch_request(machine: &Machine) -> (request: LaunchRequest)
    ensures
        request@ == launch_of(machine@),
{
    LaunchRequest {
        resources: machine.resources,
        disk_image_path: machine.image_metadata.file_metadata.file_path.clone(),
    }
}

/// The character of the decimal digit `d`.
pub open spec fn digit_char(d: nat) -> char {
    if d == 0 {
        '0'
    } else if d == 1 {
        '1'
    } else if d == 2 {
        '2'
    } else if d == 3 {
        '3'
    } else if d == 4 {
        '4'
    } else if d == 5 {
        '5'
    } else if d == 6 {
        '6'
    } else if d == 7 {
        '7'
    } else if d == 8 {
        '8'
    } else {
        '9'
    }
}

/// The decimal numeral of `n`, without leading zeros.
pub open spec fn decimal(n: nat) -> Seq<char>
    decreases n,
{
    if n < 10 {
        seq![digit_char(n)]
    } else {
        decimal(n / 10).push(digit_char(n % 10))
    }
}

/// The numeral of one decimal digit.
fn digit_str(d: u32) -> (numeral: &'static str)
    requires
        d < 10,
    ensures
        numeral@ == seq![digit_char(d as nat)],
{
    proof {
        reveal_strlit("0");
        reveal_strlit("1");
        reveal_strlit("2");
        reveal_strlit("3");
        reveal_strlit("4");
        reveal_strlit("5");
        reveal_strlit("6");
        reveal_strlit("7");
        reveal_strlit("8");
        reveal_strlit("9");
    }
    let numeral = if d == 0 {
        "0"
    } else if d == 1 {
        "1"
    } else if d == 2 {
        "2"
    } else if d == 3 {
        "3"
    } else if d == 4 {
        "4"
    } else if d == 5 {
        "5"
    } else if d == 6 {
        "6"
    } else if d == 7 {
        "7"
    } else if d == 8 {
        "8"
    } else {
        "9"
    };
    assert(numeral@ =~= seq![digit_char(d as nat)]);
    numeral
}

/// Writes `n` as a decimal numeral.
pub fn decimal_string(n: u32) -> (numeral: String)
    ensures
        numeral@ == decimal(n as nat),
    decreases n,
{
    if n < 10 {
        String::from_str(digit_str(n))
    } else {
        let mut numeral = decimal_string(n / 10);
        numeral.append(digit_str(n % 10));
        assert(numeral@ =~= decimal((n / 10) as nat).push(digit_char((n % 10) as nat)));
        numeral
    }
}

/// The program that runs a virtual machine.
pub open spec fn hypervisor() -> Seq<char> {
    "qemu-system-x86_64"@
}

/// How the hypervisor is told the memory of the virtual machine: in whole
/// gigabytes, rounded down.
pub open spec fn memory_argument(ram_mb: u32) -> Seq<char> {
    decimal((ram_mb / 1024) as nat) + "G"@
}

/// How the hypervisor is told the disk of the virtual machine.
pub open spec fn drive_argument(disk_image_path: Seq<char>) -> Seq<char> {
    "file="@ + disk_image_path + ",if=virtio"@
}

/// The arguments with which the hypervisor is started for `request`.
pub open spec fn arguments_of(request: LaunchRequestView) -> Seq<Seq<char>> {
    seq![
        "-accel"@,
        "hvf"@,
        "-cpu"@,
        "host,-rdtscp"@,
        "-smp"@,
        "2"@,
        "-m"@,
        memory_argument(request.resources.ram_mb),
        "-device"@,
        "usb-tablet"@,
        "-nographic"@,
        "-usb"@,
        "-device"@,
        "virtio-net,netdev=vmnic"@,
        "-netdev"@,
        "user,id=vmnic,hostfwd=tcp::9001-:22"@,
        "-drive"@,
        drive_argument(request.disk_image_path),
    ]
}

/// A command line: a program and its arguments.
#[derive(Debug, PartialEq, Eq)]
pub struct LaunchCommand {
    pub program: String,
    pub arguments: Vec<String>,
}

/// The command line that starts the hypervisor for `request`.
pub fn launch_command(request: &LaunchRequest) -> (command: LaunchCommand)
    ensures
        command.program@ == hypervisor(),
        command.arguments.deep_view() == arguments_of(request@),
{
    let mut memory = decimal_string(request.resources.ram_mb / 1024);
    memory.append("G");
    let mut drive = String::from_str("file=");
    drive.append(request.disk_image_path.as_str());
    drive.append(",if=virtio");
    let mut arguments: Vec<String> = Vec::new();
    arguments.push(String::from_str("-accel"));
    arguments.push(String::from_str("hvf"));
    arguments.push(String::from_str("-cpu"));
    arguments.push(String::from_str("host,-rdtscp"));
    arguments.push(String::from_str("-smp"));
    arguments.push(String::from_str("2"));
    arguments.push(String::from_str("-m"));
    arguments.push(memory);
    arguments.push(String::from_str("-device"));
    arguments.push(String::from_str("usb-tablet"));
    arguments.push(String::from_str("-nographic"));
    arguments.push(String::from_str("-usb"));
    arguments.push(String::from_str("-device"));
    arguments.push(String::from_str("virtio-net,netdev=vmnic"));
    arguments.push(String::from_str("-netdev"));
    arguments.push(String::from_str("user,id=vmnic,hostfwd=tcp::9001-:22"));
    arguments.push(String::from_str("-drive"));
    arguments.push(drive);
    assert(arguments.deep_view() =~= arguments_of(request@));
    LaunchCommand { program: String::from_str("qemu-system-x86_64"), arguments }
}

} // verus!
