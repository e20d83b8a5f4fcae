//! Client-side synchronisation of versioned records with a remote HTTP API.
//!
//! The crate holds the decisions of the client, each with its contract:
//!
//! - [`error`]: how a failed response is classified, and that the server's
//!   word and the failure to get any are kept apart;
//! - [`cache`]: where a record is cached and what is kept beside it;
//! - [`identity`]: that a cache key names its files and no others;
//! - [`sync`]: what to ask of the API, and the state machines of a fetch,
//!   which revalidates and falls back to the cache, and of a mutation,
//!   which writes through and never falls back;
//! - [`laws`]: what holds of calls one after the other over one cache;
//! - [`shop`], [`owner`], [`merchandise_list`], [`interior_ref_list`],
//!   [`transaction`] and [`client`]: the calls of each resource, the drafts
//!   they send and the records they hand to the host;
//! - [`result`]: the result that is handed to the host;
//! - [`text`]: decimal numbers and the text that can cross the boundary.
//!
//! Network and file access are left to the caller, which performs the
//! actions that the state machines ask for.

pub mod cache;
pub mod client;
pub mod error;
pub mod identity;
pub mod interior_ref_list;
pub mod laws;
pub mod merchandise_list;
pub mod owner;
pub mod result;
pub mod shop;
pub mod sync;
pub mod text;
pub mod transaction;
