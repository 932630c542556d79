//! The failures that the node, the resolver and the client report.

use vstd::prelude::*;
use vstd::string::*;

verus! {

/// The kind of entity that a lookup was made for.
#[derive(Clone, Copy, Debug, PartialEq, Eq, Structural)]
pub enum Entity {
    File,
    Image,
    Machine,
    Instance,
    DataCenter,
}

/// Why a request was not carried out.
///
/// Every failure leaves the state of the component that reports it as it
/// was before the request.
#[derive(Clone, Copy, Debug, PartialEq, Eq, Structural)]
pub enum Error {
    /// No entity of the given kind is stored under the key of the request.
    NotFound(Entity),
    /// The request does not fit the state of the entity it names.
    InvalidState,
    /// The node does not have the resources that a placement asks for.
    ResourceInsufficient,
    /// A call to a node failed or timed out.
    UpstreamUnavailable,
    /// Local storage could not be read or written.
    IoFailure,
    /// A chunk of a transfer is out of bounds or out of order.
    ProtocolViolation,
}

/// The words in which a failure is reported.
pub open spec fn message_of(e: Error) -> Seq<char> {
    match e {
        Error::NotFound(Entity::File) => "no file is declared at this path"@,
        Error::NotFound(Entity::Image) => "no image has this identifier"@,
        Error::NotFound(Entity::Machine) => "no machine has this identifier"@,
        Error::NotFound(Entity::Instance) => "no instance has this identifier"@,
        Error::NotFound(Entity::DataCenter) => "no data center is registered under this host name"@,
        Error::InvalidState => "the request does not fit the state of what it names"@,
        Error::ResourceInsufficient => "the data center has too few resources for the request"@,
        Error::UpstreamUnavailable => "the data center could not be reached"@,
        Error::IoFailure => "storage could not be read or written"@,
        Error::ProtocolViolation => "a chunk of the transfer is out of bounds or out of order"@,
    }
}

impl Error {
    /// The words in which the failure is reported.
    pub fn message(&self) -> (text: String)
        ensures
            text@ == message_of(*self),
    {
        let text = match self {
            Error::NotFound(Entity::File) => "no file is declared at this path",
            Error::NotFound(Entity::Image) => "no image has this identifier",
            Error::NotFound(Entity::Machine) => "no machine has this identifier",
            Error::NotFound(Entity::Instance) => "no instance has this identifier",
            Error::NotFound(
                Entity::DataCenter,
            ) => "no data center is registered under this host name",
            Error::InvalidState => "the request does not fit the state of what it names",
            Error::ResourceInsufficient => "the data center has too few resources for the request",
            Error::UpstreamUnavailable => "the data center could not be reached",
            Error::IoFailure => "storage could not be read or written",
            Error::ProtocolViolation => "a chunk of the transfer is out of bounds or out of order",
        };
        String::from_str(text)
    }
}

} // verus!
