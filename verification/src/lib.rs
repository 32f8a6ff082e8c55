//! Client library for a paginated, token-authenticated HTTP API.
//!
//! The two core pieces are a token lifecycle manager, which hands out a
//! valid bearer credential and refreshes it when it expires, and a
//! pagination engine, which turns a "fetch one page" primitive into a
//! uniform sequence of items with a single termination rule.

use vstd::prelude::*;

pub mod cipher;
pub mod client_creds;
pub mod clients;
pub mod model;
pub mod pagination;
pub mod sync;
pub mod token;
pub mod token_flow;

verus! {

/// Error taxonomy of the client.
///
/// `Cache` means the persisted token was present but unreadable, which is
/// surfaced distinctly from an absent cache entry (not an error).
#[derive(Clone, Copy, Debug, PartialEq, Eq, Structural)]
pub enum ClientError {
    /// The credential fetch was rejected by the auth collaborator.
    Authentication,
    /// Network or transport failure, propagated to the caller.
    Transport,
    /// The token cache was present but malformed.
    Cache,
    /// A page fetch failed; terminates the pagination sequence.
    PageFetch,
}

} // verus!
