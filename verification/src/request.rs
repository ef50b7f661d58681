//! Inbound requests and the validation that admits them.

use crate::error::Error;
use vstd::prelude::*;

verus! {

/// The operation that a request's header asks for.
#[derive(Clone, Copy, Debug, PartialEq, Eq, Structural)]
pub enum OpCode {
    Query,
    Status,
    Notify,
    Update,
}

/// Whether a message is a request or an answer to one.
#[derive(Clone, Copy, Debug, PartialEq, Eq, Structural)]
pub enum MessageType {
    Query,
    Response,
}

/// An inbound address query: the header fields that decide whether it is
/// served, and the fully-qualified name it asks for, trailing dot included.
#[derive(Clone, Debug)]
pub struct Request {
    pub op_code: OpCode,
    pub message_type: MessageType,
    pub name: String,
}

impl OpCode {
    /// The operation's name as it is written in logs.
    pub open spec fn spec_name(self) -> Seq<char> {
        match self {
            OpCode::Query => "QUERY"@,
            OpCode::Status => "STATUS"@,
            OpCode::Notify => "NOTIFY"@,
            OpCode::Update => "UPDATE"@,
        }
    }

    /// The operation's name as it is written in logs.
    pub fn name(self) -> (name: &'static str)
        ensures
            name@ == self.spec_name(),
    {
        match self {
            OpCode::Query => "QUERY",
            OpCode::Status => "STATUS",
            OpCode::Notify => "NOTIFY",
            OpCode::Update => "UPDATE",
        }
    }
}

impl MessageType {
    /// The message type's name as it is written in logs.
    pub open spec fn spec_name(self) -> Seq<char> {
        match self {
            MessageType::Query => "QUERY"@,
            MessageType::Response => "RESPONSE"@,
        }
    }

    /// The message type's name as it is written in logs.
    pub fn name(self) -> (name: &'static str)
        ensures
            name@ == self.spec_name(),
    {
        match self {
            MessageType::Query => "QUERY",
            MessageType::Response => "RESPONSE",
        }
    }
}

/// What the validator says of a header: the operation is judged first, the
/// message type only for a standard query.
pub open spec fn spec_validate(op_code: OpCode, message_type: MessageType) -> Result<(), Error> {
    if op_code != OpCode::Query {
        Err(Error::InvalidOpCode(op_code))
    } else if message_type != MessageType::Query {
        Err(Error::InvalidMessageType(message_type))
    } else {
        Ok(())
    }
}

/// Accepts a header exactly when it is a standard query in a query message.
///
/// Nothing but the two header fields is read, so a rejected request costs no
/// lookup and changes nothing.
pub fn validate(op_code: OpCode, message_type: MessageType) -> (verdict: Result<(), Error>)
    ensures
        verdict == spec_validate(op_code, message_type),
        verdict is Ok <==> (op_code == OpCode::Query && message_type == MessageType::Query),
{
    if op_code != OpCode::Query {
        Err(Error::InvalidOpCode(op_code))
    } else if message_type != MessageType::Query {
        Err(Error::InvalidMessageType(message_type))
    } else {
        Ok(())
    }
}

impl Request {
    /// A request for `name` with the given header fields.
    pub fn new(op_code: OpCode, message_type: MessageType, name: &str) -> (request: Request)
        ensures
            request.op_code == op_code,
            request.message_type == message_type,
            request.name@ == name@,
    {
        Request { op_code, message_type, name: name.to_owned() }
    }

    /// A standard query for `name`.
    pub fn query(name: &str) -> (request: Request)
        ensures
            request.op_code == OpCode::Query,
            request.message_type == MessageType::Query,
            request.name@ == name@,
    {
        Request::new(OpCode::Query, MessageType::Query, name)
    }

    /// What the validator says of this request.
    pub open spec fn spec_verdict(self) -> Result<(), Error> {
        spec_validate(self.op_code, self.message_type)
    }

    /// Validates this request's header.
    pub fn validate(&self) -> (verdict: Result<(), Error>)
        ensures
            verdict == self.spec_verdict(),
    {
        validate(self.op_code, self.message_type)
    }
}

} // verus!
