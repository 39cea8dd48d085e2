//! Decision layer of a small HTTP service backed by a document database.
//!
//! The service exposes two routes: a lookup that greets a person stored under
//! a given name, and a create that inserts a new person record. All network
//! and database traffic happens outside this crate; the functions here take
//! the plain values that the driver and the web framework hand over, make
//! every decision the service makes, and come with proofs of what they return.

use vstd::prelude::*;

pub mod config;
pub mod handlers;
pub mod person;
pub mod response;
pub mod store;

verus! {

/// Seconds the create handler waits for its insert before giving up.
pub const CREATE_TIMEOUT_SECS: u64 = 5;

/// Status code of a successful lookup response.
pub const STATUS_OK: u16 = 200;

/// Status code of a successful create response.
pub const STATUS_CREATED: u16 = 201;

/// Status code of every failed request.
pub const STATUS_INTERNAL_SERVER_ERROR: u16 = 500;

} // verus!
