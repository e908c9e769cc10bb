//! The status that ends a call without a response.

use vstd::prelude::*;

verus! {

/// The kind of a failed call.
#[derive(Clone, Copy, PartialEq, Eq, Structural, Debug)]
pub enum Code {
    /// What the call asked for does not exist.
    NotFound,
    /// The call came without valid credentials.
    Unauthenticated,
}

/// A failed call: its kind and a message for the caller.
#[derive(Debug, PartialEq, Clone)]
pub struct Status {
    pub code: Code,
    pub message: String,
}

impl Status {
    /// A status of the kind `NotFound` with the given message.
    pub fn not_found(message: String) -> (status: Status)
        ensures
            status.code == Code::NotFound,
            status.message == message,
    {
        Status { code: Code::NotFound, message }
    }

    /// A status of the kind `Unauthenticated` with the given message.
    pub fn unauthenticated(message: String) -> (status: Status)
        ensures
            status.code == Code::Unauthenticated,
            status.message == message,
    {
        Status { code: Code::Unauthenticated, message }
    }
}

} // verus!
