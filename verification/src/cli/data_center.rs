//! The command line of the client of a data center node.
//!
//! ```text
//! datacenter <HOST_NAME> instance provision-instance <MACHINE_ID>
//! datacenter <HOST_NAME> instance stop-instance <INSTANCE_ID>
//! datacenter <HOST_NAME> instance start-instance <INSTANCE_ID>
//! datacenter <HOST_NAME> instance list-instances
//! datacenter <HOST_NAME> machine create-machine <IMAGE_ID> <RAM_MB> <DISK_MB> <VCPUS>
//! datacenter <HOST_NAME> machine list-machines
//! datacenter <HOST_NAME> compute up <OPTIONS> local-image <LOCAL_PATH> <STORAGE_PATH>
//! datacenter <HOST_NAME> storage upload-file <LOCAL_FILE_PATH> <STORAGE_FILE_PATH>
//! datacenter <HOST_NAME> storage download-file <STORAGE_PATH> <LOCAL_PATH>
//! datacenter <HOST_NAME> os upload-image [--image-id <IMAGE_ID>] <SOURCE> <DESTINATION>
//! datacenter <HOST_NAME> os download-image <IMAGE_ID> <DESTINATION_PATH>
//! datacenter <HOST_NAME> os get-image-metadata <IMAGE_ID>
//! datacenter <HOST_NAME> os list-image-metadata
//! ```
//!
//! The options of `up` are `--ram-mb`, `--disk-mb` and `--vcpus`, or `-r`,
//! `-d` and `-v` for short. Each is followed by a number, each is given
//! once, and they come in any order. `-i` is short for `--image-id`.

use vstd::prelude::*;
use crate::cli::args::{is_word, parse_number, parse_u32, CliError};
use crate::client::{operation_of, OperationView};
use crate::model::Resources;

verus! {

/// A command line of the client: the node to talk to and what to ask.
#[derive(Debug, PartialEq, Eq)]
pub struct Cli {
    /// Host name of the data center
    pub host_name: String,
    pub command: Commands,
}

#[derive(Debug, PartialEq, Eq)]
pub enum Commands {
    Instance(InstanceArguments),
    Machine(MachineArguments),
    Compute(ComputeArguments),
    Storage(StorageArguments),
    Os(OperatingSystemArguments),
}

#[derive(Debug, PartialEq, Eq)]
pub struct InstanceArguments {
    pub instance: InstanceCommands,
}

#[derive(Debug, PartialEq, Eq)]
pub enum InstanceCommands {
    ProvisionInstance(ProvisionInstanceArguments),
    StopInstance(StopInstanceArguments),
    StartInstance(StartInstanceArguments),
    ListInstances,
}

#[derive(Debug, PartialEq, Eq)]
pub struct MachineArguments {
    pub machine: MachineCommands,
}

#[derive(Debug, PartialEq, Eq)]
pub enum MachineCommands {
    CreateMachine(CreateMachineArguments),
    ListMachines,
}

#[derive(Debug, PartialEq, Eq)]
pub struct ComputeArguments {
    pub compute: ComputeCommands,
}

#[derive(Debug, PartialEq, Eq)]
pub enum ComputeCommands {
    Up(UpArguments),
}

#[derive(Debug, PartialEq, Eq)]
pub struct UpArguments {
    pub up: UpCommands,
    pub ram_mb: u32,
    pub disk_mb: u32,
    pub vcpus: u32,
}

#[derive(Debug, PartialEq, Eq)]
pub enum UpCommands {
    LocalImage(UpLocalImageArguments),
}

#[derive(Debug, PartialEq, Eq)]
pub struct UpLocalImageArguments {
    pub local_path: String,
    pub storage_path: String,
}

#[derive(Debug, PartialEq, Eq)]
pub struct StartInstanceArguments {
    pub instance_id: String,
}

#[derive(Debug, PartialEq, Eq)]
pub struct StorageArguments {
    pub storage: StorageCommands,
}

#[derive(Debug, PartialEq, Eq)]
pub enum StorageCommands {
    UploadFile(UploadFileArguments),
    DownloadFile(DownloadFileArguments),
}

#[derive(Debug, PartialEq, Eq)]
pub struct UploadFileArguments {
    pub local_file_path: String,
    pub storage_file_path: String,
}

#[derive(Debug, PartialEq, Eq)]
pub struct DownloadFileArguments {
    pub storage_path: String,
    pub local_path: String,
}

#[derive(Debug, PartialEq, Eq)]
pub struct OperatingSystemArguments {
    pub os: OperatingSystemCommands,
}

#[derive(Debug, PartialEq, Eq)]
pub enum OperatingSystemCommands {
    UploadImage(UploadImageArguments),
    DownloadImage(DownloadImageArguments),
    GetImageMetadata(GetImageMetadataArguments),
    ListImageMetadata,
}

#[derive(Debug, PartialEq, Eq)]
pub struct GetImageMetadataArguments {
    /// Image id
    pub image_id: String,
}

#[derive(Debug, PartialEq, Eq)]
pub struct ProvisionInstanceArguments {
    /// Machine id
    pub machine_id: String,
}

#[derive(Debug, PartialEq, Eq)]
pub struct StopInstanceArguments {
    pub instance_id: String,
}

#[derive(Debug, PartialEq, Eq)]
pub struct CreateMachineArguments {
    /// Image id
    pub image_id: String,
    /// Ram mb
    pub ram_mb: u32,
    /// Disk mb
    pub disk_mb: u32,
    /// VCPUs mb
    pub vcpus: u32,
}

#[derive(Debug, PartialEq, Eq)]
pub struct UploadImageArguments {
    /// image id
    pub image_id: Option<String>,
    /// Path to image
    pub source_image_path: String,
    /// Path to image storage
    pub destination_image_path: String,
}

#[derive(Debug, PartialEq, Eq)]
pub struct DownloadImageArguments {
    /// image id
    pub image_id: String,
    /// Path to write image to
    pub destination_path: String,
}

/// The mathematical content of a [`Cli`]: the node to talk to and the
/// operation that is asked of it.
pub struct CliView {
    pub host_name: Seq<char>,
    pub operation: OperationView,
}

impl View for Cli {
    type V = CliView;

    open spec fn view(&self) -> CliView {
        CliView { host_name: self.host_name@, operation: operation_of(self.command) }
    }
}

/// The value that follows the first of the options `long` and `short`
/// among the options at the positions `from`, `from + 2`, ... below `to`.
pub open spec fn option_value(
    a: Seq<Seq<char>>,
    from: int,
    to: int,
    long: Seq<char>,
    short: Seq<char>,
) -> Option<Seq<char>>
    decreases to - from,
{
    if from + 2 > to {
        None
    } else if a[from] == long || a[from] == short {
        Some(a[from + 1])
    } else {
        option_value(a, from + 2, to, long, short)
    }
}

/// The number given for the option `long`, or `short`, of `up`.
pub open spec fn up_number(a: Seq<Seq<char>>, long: Seq<char>, short: Seq<char>) -> Option<u32> {
    match option_value(a, 3, 9, long, short) {
        Some(value) => parse_number(value),
        None => None,
    }
}

/// What `instance` and the arguments after it ask for.
pub open spec fn parse_instance(a: Seq<Seq<char>>) -> Option<OperationView> {
    if a[2] == "provision-instance"@ {
        if a.len() == 4 {
            Some(OperationView::ProvisionInstance { machine_id: a[3] })
        } else {
            None
        }
    } else if a[2] == "stop-instance"@ {
        if a.len() == 4 {
            Some(OperationView::StopInstance { instance_id: a[3] })
        } else {
            None
        }
    } else if a[2] == "start-instance"@ {
        if a.len() == 4 {
            Some(OperationView::StartInstance { instance_id: a[3] })
        } else {
            None
        }
    } else if a[2] == "list-instances"@ {
        if a.len() == 3 {
            Some(OperationView::ListInstances)
        } else {
            None
        }
    } else {
        None
    }
}

/// What `machine` and the arguments after it ask for.
pub open spec fn parse_machine(a: Seq<Seq<char>>) -> Option<OperationView> {
    if a[2] == "create-machine"@ {
        if a.len() == 7 {
            match (parse_number(a[4]), parse_number(a[5]), parse_number(a[6])) {
                (Some(ram_mb), Some(disk_mb), Some(vcpus)) => Some(
                    OperationView::CreateMachine {
                        image_id: a[3],
                        resources: Resources { ram_mb, disk_mb, vcpus },
                    },
                ),
                _ => None,
            }
        } else {
            None
        }
    } else if a[2] == "list-machines"@ {
        if a.len() == 3 {
            Some(OperationView::ListMachines)
        } else {
            None
        }
    } else {
        None
    }
}

/// What `compute` and the arguments after it ask for.
pub open spec fn parse_compute(a: Seq<Seq<char>>) -> Option<OperationView> {
    if a[2] == "up"@ && a.len() == 12 && a[9] == "local-image"@ {
        match (
            up_number(a, "--ram-mb"@, "-r"@),
            up_number(a, "--disk-mb"@, "-d"@),
            up_number(a, "--vcpus"@, "-v"@),
        ) {
            (Some(ram_mb), Some(disk_mb), Some(vcpus)) => Some(
                OperationView::UpLocalImage {
                    resources: Resources { ram_mb, disk_mb, vcpus },
                    local_path: a[10],
                    storage_path: a[11],
                },
            ),
            _ => None,
        }
    } else {
        None
    }
}

/// What `storage` and the arguments after it ask for.
pub open spec fn parse_storage(a: Seq<Seq<char>>) -> Option<OperationView> {
    if a[2] == "upload-file"@ {
        if a.len() == 5 {
            Some(OperationView::UploadFile { local_file_path: a[3], storage_file_path: a[4] })
        } else {
            None
        }
    } else if a[2] == "download-file"@ {
        if a.len() == 5 {
            Some(OperationView::DownloadFile { storage_path: a[3], local_path: a[4] })
        } else {
            None
        }
    } else {
        None
    }
}

/// What `os` and the arguments after it ask for.
pub open spec fn parse_os(a: Seq<Seq<char>>) -> Option<OperationView> {
    if a[2] == "upload-image"@ {
        if a.len() == 5 {
            Some(
                OperationView::UploadImage {
                    image_id: None,
                    source_image_path: a[3],
                    destination_image_path: a[4],
                },
            )
        } else if a.len() == 7 && (a[3] == "--image-id"@ || a[3] == "-i"@) {
            Some(
                OperationView::UploadImage {
                    image_id: Some(a[4]),
                    source_image_path: a[5],
                    destination_image_path: a[6],
                },
            )
        } else {
            None
        }
    } else if a[2] == "download-image"@ {
        if a.len() == 5 {
            Some(OperationView::DownloadImage { image_id: a[3], destination_path: a[4] })
        } else {
            None
        }
    } else if a[2] == "get-image-metadata"@ {
        if a.len() == 4 {
            Some(OperationView::GetImageMetadata { image_id: a[3] })
        } else {
            None
        }
    } else if a[2] == "list-image-metadata"@ {
        if a.len() == 3 {
            Some(OperationView::ListImageMetadata)
        } else {
            None
        }
    } else {
        None
    }
}

/// What the arguments `a` of the program ask for, or `None` where they
/// are no command of the program. The arguments are those that follow
/// the name of the program: the host name of the node, the group of the
/// command, the command and its operands.
pub open spec fn parse_command_line(a: Seq<Seq<char>>) -> Option<CliView> {
    let operation = if a.len() < 3 {
        None
    } else if a[1] == "instance"@ {
        parse_instance(a)
    } else if a[1] == "machine"@ {
        parse_machine(a)
    } else if a[1] == "compute"@ {
        parse_compute(a)
    } else if a[1] == "storage"@ {
        parse_storage(a)
    } else if a[1] == "os"@ {
        parse_os(a)
    } else {
        None
    };
    match operation {
        Some(operation) => Some(CliView { host_name: a[0], operation }),
        None => None,
    }
}

/// A copy of the argument at position `i`.
fn argument(args: &Vec<String>, i: usize) -> (copy: String)
    requires
        i < args.len(),
    ensures
        copy@ == args.deep_view()[i as int],
{
    args[i].clone()
}

/// Whether the argument at position `i` is the word `word`.
fn argument_is(args: &Vec<String>, i: usize, word: &str) -> (same: bool)
    requires
        i < args.len(),
    ensures
        same == (args.deep_view()[i as int] == word@),
{
    is_word(&args[i], word)
}

/// The number at position `i`.
fn number_at(args: &Vec<String>, i: usize) -> (number: Option<u32>)
    requires
        i < args.len(),
    ensures
        number == parse_number(args.deep_view()[i as int]),
{
    parse_u32(&args[i])
}

/// The number given for the option `long`, or `short`, of `up`.
fn up_option(args: &Vec<String>, long: &str, short: &str) -> (number: Option<u32>)
    requires
        args.len() == 12,
    ensures
        number == up_number(args.deep_view(), long@, short@),
{
    let mut i: usize = 3;
    while i < 9
        invariant
            args.len() == 12,
            3 <= i <= 9,
            (i - 3) % 2 == 0,
            option_value(args.deep_view(), 3, 9, long@, short@) == option_value(
                args.deep_view(),
                i as int,
                9,
                long@,
                short@,
            ),
        decreases 9 - i,
    {
        if argument_is(args, i, long) || argument_is(args, i, short) {
            return number_at(args, i + 1);
        }
        i = i + 2;
    }
    None
}

fn parse_instance_arguments(args: &Vec<String>) -> (parsed: Result<InstanceCommands, CliError>)
    requires
        args.len() >= 3,
    ensures
        match parsed {
            Ok(command) => parse_instance(args.deep_view()) == Some(
                operation_of(Commands::Instance(InstanceArguments { instance: command })),
            ),
            Err(e) => parse_instance(args.deep_view()) is None,
        },
{
    if argument_is(args, 2, "provision-instance") {
        if args.len() == 4 {
            Ok(
                InstanceCommands::ProvisionInstance(
                    ProvisionInstanceArguments { machine_id: argument(args, 3) },
                ),
            )
        } else {
            Err(CliError::Usage)
        }
    } else if argument_is(args, 2, "stop-instance") {
        if args.len() == 4 {
            Ok(InstanceCommands::StopInstance(StopInstanceArguments { instance_id: argument(args, 3) }))
        } else {
            Err(CliError::Usage)
        }
    } else if argument_is(args, 2, "start-instance") {
        if args.len() == 4 {
            Ok(
                InstanceCommands::StartInstance(
                    StartInstanceArguments { instance_id: argument(args, 3) },
                ),
            )
        } else {
            Err(CliError::Usage)
        }
    } else if argument_is(args, 2, "list-instances") {
        if args.len() == 3 {
            Ok(InstanceCommands::ListInstances)
        } else {
            Err(CliError::Usage)
        }
    } else {
        Err(CliError::Usage)
    }
}

fn parse_machine_arguments(args: &Vec<String>) -> (parsed: Result<MachineCommands, CliError>)
    requires
        args.len() >= 3,
    ensures
        match parsed {
            Ok(command) => parse_machine(args.deep_view()) == Some(
                operation_of(Commands::Machine(MachineArguments { machine: command })),
            ),
            Err(e) => parse_machine(args.deep_view()) is None,
        },
{
    if argument_is(args, 2, "create-machine") {
        if args.len() == 7 {
            match (number_at(args, 4), number_at(args, 5), number_at(args, 6)) {
                (Some(ram_mb), Some(disk_mb), Some(vcpus)) => Ok(
                    MachineCommands::CreateMachine(
                        CreateMachineArguments {
                            image_id: argument(args, 3),
                            ram_mb,
                            disk_mb,
                            vcpus,
                        },
                    ),
                ),
                _ => Err(CliError::Usage),
            }
        } else {
            Err(CliError::Usage)
        }
    } else if argument_is(args, 2, "list-machines") {
        if args.len() == 3 {
            Ok(MachineCommands::ListMachines)
        } else {
            Err(CliError::Usage)
        }
    } else {
        Err(CliError::Usage)
    }
}

fn parse_compute_arguments(args: &Vec<String>) -> (parsed: Result<ComputeCommands, CliError>)
    requires
        args.len() >= 3,
    ensures
        match parsed {
            Ok(command) => parse_compute(args.deep_view()) == Some(
                operation_of(Commands::Compute(ComputeArguments { compute: command })),
            ),
            Err(e) => parse_compute(args.deep_view()) is None,
        },
{
    if argument_is(args, 2, "up") && args.len() == 12 && argument_is(args, 9, "local-image") {
        match (
            up_option(args, "--ram-mb", "-r"),
            up_option(args, "--disk-mb", "-d"),
            up_option(args, "--vcpus", "-v"),
        ) {
            (Some(ram_mb), Some(disk_mb), Some(vcpus)) => Ok(
                ComputeCommands::Up(
                    UpArguments {
                        up: UpCommands::LocalImage(
                            UpLocalImageArguments {
                                local_path: argument(args, 10),
                                storage_path: argument(args, 11),
                            },
                        ),
                        ram_mb,
                        disk_mb,
                        vcpus,
                    },
                ),
            ),
            _ => Err(CliError::Usage),
        }
    } else {
        Err(CliError::Usage)
    }
}

fn parse_storage_arguments(args: &Vec<String>) -> (parsed: Result<StorageCommands, CliError>)
    requires
        args.len() >= 3,
    ensures
        match parsed {
            Ok(command) => parse_storage(args.deep_view()) == Some(
                operation_of(Commands::Storage(StorageArguments { storage: command })),
            ),
            Err(e) => parse_storage(args.deep_view()) is None,
        },
{
    if argument_is(args, 2, "upload-file") {
        if args.len() == 5 {
            Ok(
                StorageCommands::UploadFile(
                    UploadFileArguments {
                        local_file_path: argument(args, 3),
                        storage_file_path: argument(args, 4),
                    },
                ),
            )
        } else {
            Err(CliError::Usage)
        }
    } else if argument_is(args, 2, "download-file") {
        if args.len() == 5 {
            Ok(
                StorageCommands::DownloadFile(
                    DownloadFileArguments {
                        storage_path: argument(args, 3),
                        local_path: argument(args, 4),
                    },
                ),
            )
        } else {
            Err(CliError::Usage)
        }
    } else {
        Err(CliError::Usage)
    }
}

fn parse_os_arguments(args: &Vec<String>) -> (parsed: Result<OperatingSystemCommands, CliError>)
    requires
        args.len() >= 3,
    ensures
        match parsed {
            Ok(command) => parse_os(args.deep_view()) == Some(
                operation_of(Commands::Os(OperatingSystemArguments { os: command })),
            ),
            Err(e) => parse_os(args.deep_view()) is None,
        },
{
    if argument_is(args, 2, "upload-image") {
        if args.len() == 5 {
            Ok(
                OperatingSystemCommands::UploadImage(
                    UploadImageArguments {
                        image_id: None,
                        source_image_path: argument(args, 3),
                        destination_image_path: argument(args, 4),
                    },
                ),
            )
        } else if args.len() == 7 && (argument_is(args, 3, "--image-id") || argument_is(
            args,
            3,
            "-i",
        )) {
            Ok(
                OperatingSystemCommands::UploadImage(
                    UploadImageArguments {
                        image_id: Some(argument(args, 4)),
                        source_image_path: argument(args, 5),
                        destination_image_path: argument(args, 6),
                    },
                ),
            )
        } else {
            Err(CliError::Usage)
        }
    } else if argument_is(args, 2, "download-image") {
        if args.len() == 5 {
            Ok(
                OperatingSystemCommands::DownloadImage(
                    DownloadImageArguments {
                        image_id: argument(args, 3),
                        destination_path: argument(args, 4),
                    },
                ),
            )
        } else {
            Err(CliError::Usage)
        }
    } else if argument_is(args, 2, "get-image-metadata") {
        if args.len() == 4 {
            Ok(
                OperatingSystemCommands::GetImageMetadata(
                    GetImageMetadataArguments { image_id: argument(args, 3) },
                ),
            )
        } else {
            Err(CliError::Usage)
        }
    } else if argument_is(args, 2, "list-image-metadata") {
        if args.len() == 3 {
            Ok(OperatingSystemCommands::ListImageMetadata)
        } else {
            Err(CliError::Usage)
        }
    } else {
        Err(CliError::Usage)
    }
}

/// Reads the arguments of the program, those that follow its name.
/// Fails with `Usage` where they are no command of the program.
pub fn parse_cli(args: &Vec<String>) -> (parsed: Result<Cli, CliError>)
    ensures
        match parsed {
            Ok(cli) => parse_command_line(args.deep_view()) == Some(cli@),
            Err(e) => parse_command_line(args.deep_view()) is None && e == CliError::Usage,
        },
{
    if args.len() < 3 {
        return Err(CliError::Usage);
    }
    let command = if argument_is(args, 1, "instance") {
        match parse_instance_arguments(args) {
            Ok(instance) => Commands::Instance(InstanceArguments { instance }),
            Err(e) => {
                return Err(CliError::Usage);
            },
        }
    } else if argument_is(args, 1, "machine") {
        match parse_machine_arguments(args) {
            Ok(machine) => Commands::Machine(MachineArguments { machine }),
            Err(e) => {
                return Err(CliError::Usage);
            },
        }
    } else if argument_is(args, 1, "compute") {
        match parse_compute_arguments(args) {
            Ok(compute) => Commands::Compute(ComputeArguments { compute }),
            Err(e) => {
                return Err(CliError::Usage);
            },
        }
    } else if argument_is(args, 1, "storage") {
        match parse_storage_arguments(args) {
            Ok(storage) => Commands::Storage(StorageArguments { storage }),
            Err(e) => {
                return Err(CliError::Usage);
            },
        }
    } else if argument_is(args, 1, "os") {
        match parse_os_arguments(args) {
            Ok(os) => Commands::Os(OperatingSystemArguments { os }),
            Err(e) => {
                return Err(CliError::Usage);
            },
        }
    } else {
        return Err(CliError::Usage);
    };
    Ok(Cli { host_name: argument(args, 0), command })
}

} // verus!
