//! Verified core of a cross-repository branch synchronization tool.
//!
//! The library models the per-repository orchestration workflow of a
//! git-forge client: it decides, from configuration and from the responses
//! the forge returns, which API call to issue next, when a pull request is
//! resolved or created, when a merge may be attempted, and when the source
//! branch may be deleted.  All network traffic and JSON parsing live outside
//! the library; the library receives plain values and returns plain values.

pub mod client;
pub mod decimal;
pub mod decode;
pub mod errors;
pub mod json;
pub mod laws;
pub mod listing;
pub mod models;
pub mod workflow;

use vstd::prelude::*;

verus! {

/// Persisted run configuration: the forge credentials and the repositories
/// the workflow is applied to.
pub struct Config {
    pub token: String,
    pub org_name: String,
    pub is_user: bool,
    pub repos: Vec<String>,
}

} // verus!
