//! The outcome of a call or of one item of a stream, when it is not a value.

use vstd::prelude::*;
use vstd::string::*;

verus! {

/// Why a call, or one item of a stream, was turned down.
#[derive(Clone, Copy, Debug, PartialEq, Eq, Structural)]
pub enum Code {
    /// The request names no known kind of work.
    InvalidArgument,
    /// A collaborator behind the service could not be reached or failed.
    Internal,
    /// The operation exists in the interface only.
    Unimplemented,
}

/// A failure with its kind and a message for the client.
#[derive(Clone, Debug, PartialEq, Eq)]
pub struct Status {
    pub code: Code,
    pub message: String,
}

impl Status {
    /// Whether this failure has the given kind and message.
    pub open spec fn has(self, code: Code, message: Seq<char>) -> bool {
        self.code == code && self.message@ == message
    }

    pub fn new(code: Code, message: &str) -> (status: Status)
        ensures
            status.has(code, message@),
    {
        Status { code, message: String::from_str(message) }
    }

    pub fn invalid_argument(message: &str) -> (status: Status)
        ensures
            status.has(Code::InvalidArgument, message@),
    {
        Status::new(Code::InvalidArgument, message)
    }

    pub fn internal(message: &str) -> (status: Status)
        ensures
            status.has(Code::Internal, message@),
    {
        Status::new(Code::Internal, message)
    }

    pub fn unimplemented(message: &str) -> (status: Status)
        ensures
            status.has(Code::Unimplemented, message@),
    {
        Status::new(Code::Unimplemented, message)
    }

    pub fn code(&self) -> (code: Code)
        ensures
            code == self.code,
    {
        self.code
    }

    pub fn message(&self) -> (message: &str)
        ensures
            message@ == self.message@,
    {
        self.message.as_str()
    }
}

} // verus!
