//! The failures that this service tells apart.

use crate::request::{MessageType, OpCode};
use vstd::prelude::*;

verus! {

/// A failure, by class.
///
/// Only a listener that cannot be bound stops the process; every other class
/// is confined to the request or the refresh that met it.
#[derive(Clone, Copy, Debug, PartialEq, Eq, Structural)]
pub enum Error {
    /// The request asks for an operation other than a standard query.
    InvalidOpCode(OpCode),
    /// The message is not a query.
    InvalidMessageType(MessageType),
    /// The topology source failed or timed out; the old snapshot stays.
    TopologyRefreshFailed,
    /// Both upstream resolvers failed or timed out for one query.
    ExternalResolutionFailed,
    /// A configured listener could not be bound at startup.
    TransportBindFailed,
}

impl Error {
    /// Whether the process must stop on this failure.
    pub open spec fn spec_is_fatal(self) -> bool {
        self == Error::TransportBindFailed
    }

    /// Whether the process must stop on this failure.
    pub fn is_fatal(&self) -> (fatal: bool)
        ensures
            fatal == self.spec_is_fatal(),
    {
        match self {
            Error::TransportBindFailed => true,
            _ => false,
        }
    }

    /// The text of this failure for the log.
    pub open spec fn spec_message(self) -> Seq<char> {
        match self {
            Error::InvalidOpCode(op_code) => "Invalid OpCode "@ + op_code.spec_name(),
            Error::InvalidMessageType(message_type) => "Invalid MessageType "@
                + message_type.spec_name(),
            Error::TopologyRefreshFailed => "Topology refresh failed"@,
            Error::ExternalResolutionFailed => "External resolution failed"@,
            Error::TransportBindFailed => "Transport bind failed"@,
        }
    }

    /// The text of this failure for the log.
    pub fn message(&self) -> (text: String)
        ensures
            text@ == self.spec_message(),
    {
        match self {
            Error::InvalidOpCode(op_code) => {
                let mut text: String = "Invalid OpCode ".to_owned();
                text.append(op_code.name());
                text
            },
            Error::InvalidMessageType(message_type) => {
                let mut text: String = "Invalid MessageType ".to_owned();
                text.append(message_type.name());
                text
            },
            Error::TopologyRefreshFailed => "Topology refresh failed".to_owned(),
            Error::ExternalResolutionFailed => "External resolution failed".to_owned(),
            Error::TransportBindFailed => "Transport bind failed".to_owned(),
        }
    }
}

} // verus!
