//! The rules of the service, on plain values.

pub mod auth;
pub mod crypto;
pub mod event;
pub mod user;
