//! The command line of the client of the resolver.
//!
//! ```text
//! dcns list
//! dcns register <HOST_NAME>
//! ```

use vstd::prelude::*;
use crate::cli::args::{is_word, CliError};

verus! {

/// A command line of the client.
#[derive(Debug, PartialEq, Eq)]
pub struct Cli {
    pub command: Commands,
}

#[derive(Debug, PartialEq, Eq)]
pub enum Commands {
    List,
    Register(RegisterDataCenterCommand),
}

#[derive(Debug, PartialEq, Eq)]
pub struct RegisterDataCenterCommand {
    pub host_name: String,
}

/// What a command asks of the resolver.
#[derive(Debug, PartialEq, Eq)]
pub enum ResolverRequest {
    ListDataCenters,
    RegisterDataCenter { host_name: String },
}

/// The mathematical content of a [`Cli`] and of a [`ResolverRequest`].
pub enum ResolverRequestView {
    ListDataCenters,
    RegisterDataCenter { host_name: Seq<char> },
}

impl View for ResolverRequest {
    type V = ResolverRequestView;

    open spec fn view(&self) -> ResolverRequestView {
        match self {
            ResolverRequest::ListDataCenters => ResolverRequestView::ListDataCenters,
            ResolverRequest::RegisterDataCenter {
                host_name,
            } => ResolverRequestView::RegisterDataCenter { host_name: host_name@ },
        }
    }
}

impl View for Cli {
    type V = ResolverRequestView;

    open spec fn view(&self) -> ResolverRequestView {
        match self.command {
            Commands::List => ResolverRequestView::ListDataCenters,
            Commands::Register(command) => ResolverRequestView::RegisterDataCenter {
                host_name: command.host_name@,
            },
        }
    }
}

/// What the arguments `a` of the program ask for, or `None` where they
/// are no command of the program. The arguments are those that follow
/// the name of the program.
pub open spec fn parse_command_line(a: Seq<Seq<char>>) -> Option<ResolverRequestView> {
    if a.len() == 1 && a[0] == "list"@ {
        Some(ResolverRequestView::ListDataCenters)
    } else if a.len() == 2 && a[0] == "register"@ {
        Some(ResolverRequestView::RegisterDataCenter { host_name: a[1] })
    } else {
        None
    }
}

/// Reads the arguments of the program, those that follow its name.
/// Fails with `Usage` where they are no command of the program.
pub fn parse_cli(args: &Vec<String>) -> (parsed: Result<Cli, CliError>)
    ensures
        match parsed {
            Ok(cli) => parse_command_line(args.deep_view()) == Some(cli@),
            Err(e) => parse_command_line(args.deep_view()) is None && e == CliError::Usage,
        },
{
    if args.len() == 1 && is_word(&args[0], "list") {
        Ok(Cli { command: Commands::List })
    } else if args.len() == 2 && is_word(&args[0], "register") {
        Ok(
            Cli {
                command: Commands::Register(
                    RegisterDataCenterCommand { host_name: args[1].clone() },
                ),
            },
        )
    } else {
        Err(CliError::Usage)
    }
}

/// The request that registers the node named on the command line.
pub fn register_data_center(command: RegisterDataCenterCommand) -> (request: ResolverRequest)
    ensures
        request@ == (ResolverRequestView::RegisterDataCenter { host_name: command.host_name@ }),
{
    ResolverRequest::RegisterDataCenter { host_name: command.host_name }
}

/// The request that lists the registered nodes.
pub fn list_data_centers() -> (request: ResolverRequest)
    ensures
        request@ == ResolverRequestView::ListDataCenters,
{
    ResolverRequest::ListDataCenters
}

/// The request that a command line asks for.
pub fn handle_command(cli: Cli) -> (request: ResolverRequest)
    ensures
        request@ == cli@,
{
    match cli.command {
        Commands::Register(command) => register_data_center(command),
        Commands::List => list_data_centers(),
    }
}

} // verus!
