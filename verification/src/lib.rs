//! The rules of a small users service: who may act on a user record, how a
//! storage failure becomes a transport status, and how rows become messages.
//! Transport and storage stay outside; functions here take and return plain
//! values.

pub mod calendar;
pub mod grpc;
pub mod identifier;
pub mod rest;
