//! Credential gate for a small event service: signed, expiring identity
//! assertions of two classes, their validity check, the rotation of a stale
//! access credential under a live refresh credential, and the login flow.

pub mod db;
pub mod dto;
pub mod errors;
pub mod ids;
pub mod models;
pub mod service;
pub mod text;

use vstd::prelude::*;

verus! {

/// The time for which a fresh access credential is live: one hour, in
/// microseconds.
pub const ACCESS_TOKEN_EXP: u64 = 60 * 60 * 1000 * 1000;

/// The time for which a fresh refresh credential is live: five days, in
/// microseconds.
pub const REFRESH_TOKEN_EXP: u64 = 5 * 24 * 60 * 60 * 1000 * 1000;

} // verus!
