//! Version 1 of the users API.

pub mod handlers;
pub mod repository;
pub mod service;
