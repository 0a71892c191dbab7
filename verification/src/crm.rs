//! The customer record of the orchestrating service, and the answer of
//! its operations that exist in the interface only.

use crate::status::{Code, Status};
use crate::time::{to_ts, Timestamp, NANOS_LIMIT};
use vstd::prelude::*;
use vstd::string::*;

verus! {

/// A customer.
#[derive(Clone, Debug, PartialEq, Eq)]
pub struct User {
    pub id: u64,
    pub name: String,
    pub email: String,
    pub created_at: Option<Timestamp>,
}

impl User {
    /// The customer as recorded at the instant `now`.
    pub fn recorded(id: u64, name: &str, email: &str, now: Timestamp) -> (user: User)
        ensures
            user.id == id,
            user.name@ == name@,
            user.email@ == email@,
            user.created_at == Some(now),
    {
        User {
            id,
            name: String::from_str(name),
            email: String::from_str(email),
            created_at: Some(now),
        }
    }

    /// The customer as recorded now.
    pub fn new(id: u64, name: &str, email: &str) -> (user: User)
        ensures
            user.id == id,
            user.name@ == name@,
            user.email@ == email@,
            user.created_at is Some,
            0 <= user.created_at->0.nanos < NANOS_LIMIT,
    {
        User::recorded(id, name, email, to_ts())
    }
}

/// The message of the failure that answers an operation which is not
/// built yet.
pub open spec fn not_built(operation: Seq<char>) -> Seq<char> {
    operation + " is not implemented"@
}

/// The failure that answers the operation `operation`, which is not built
/// yet. It is an answer like any other: the call ends, the process goes on.
pub fn unimplemented(operation: &str) -> (status: Status)
    ensures
        status.has(Code::Unimplemented, not_built(operation@)),
{
    let mut message = String::from_str(operation);
    message.append(" is not implemented");
    Status::unimplemented(message.as_str())
}

/// The answer to a request to win customers back.
pub fn recall() -> (status: Status)
    ensures
        status.has(Code::Unimplemented, not_built("recall"@)),
{
    unimplemented("recall")
}

/// The answer to a request to remind customers.
pub fn remind() -> (status: Status)
    ensures
        status.has(Code::Unimplemented, not_built("remind"@)),
{
    unimplemented("remind")
}

} // verus!
