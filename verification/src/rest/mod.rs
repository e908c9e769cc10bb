//! The HTTP service: user records, the service that guards them, and the
//! answers that its handlers give.

pub mod models;
pub mod v1;
