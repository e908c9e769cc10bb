//! The messages of the RPC interface.

use vstd::prelude::*;

verus! {

/// The request of the greeting call.
#[derive(Debug, PartialEq, Clone)]
pub struct HiRequest {
    pub hello: String,
}

/// The response of the greeting call.
#[derive(Debug, PartialEq, Clone)]
pub struct HiResponse {
    pub message: String,
}

/// The request for a user by name.
#[derive(Debug, PartialEq, Clone)]
pub struct UserRequest {
    pub name: String,
}

/// A point in time on the wire: seconds since 1970-01-01 00:00:00 UTC and
/// nanoseconds within the second.
#[derive(Clone, Copy, PartialEq, Eq, Structural, Debug)]
pub struct Timestamp {
    pub seconds: i64,
    pub nanos: i32,
}

/// A user on the wire. `custom_data` is a map: no key stands in it twice.
#[derive(Debug, PartialEq, Clone)]
pub struct User {
    pub id: String,
    pub name: String,
    pub birth_date: Option<Timestamp>,
    pub created_at: Option<Timestamp>,
    pub updated_at: Option<Timestamp>,
    pub custom_data: Vec<(String, i64)>,
}

} // verus!
