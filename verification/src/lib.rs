//! A conversational banking front-end: a per-chat state machine over a
//! TTL-aware session store, and an adapter that encodes typed operations
//! into the banking gateway's query-string-plus-embedded-JSON format and
//! decodes its heterogeneous JSON responses.

pub mod callback;
pub mod config;
pub mod controller;
pub mod decode;
pub mod encode;
pub mod json;
pub mod models;
pub mod money;
pub mod ops;
pub mod resume;
pub mod screen;
pub mod session;
mod text;

use vstd::prelude::*;

verus! {

/// Seconds before an ephemeral session entry expires.
pub const SESSION_TTL_SECS: u64 = 120;

} // verus!
