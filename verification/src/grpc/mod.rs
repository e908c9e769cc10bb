//! The RPC service: a greeting, and users looked up by name.

pub mod auth;
pub mod data;
pub mod proto;
pub mod service;
pub mod status;
