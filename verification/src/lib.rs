//! Session-and-ticket broker for a Flight-style columnar RPC service.
//!
//! The broker issues and validates bearer tokens, binds compiled-but-unexecuted
//! queries to single-use opaque tickets, and serves the administrative actions
//! (context refresh, expired-entry eviction). The SQL engine, the columnar wire
//! encoder and the database bridge are external collaborators: the broker only
//! decides, over plain values, what each call must do.
//!
//! Every mutating store operation takes the store exclusively and every read
//! takes it shared, so whatever lock the embedding program puts around the
//! service, the per-store operations stay linearizable; a context swap is a
//! whole-value replacement that leaves both stores untouched.

use vstd::prelude::*;

pub mod context;
pub mod flight;
pub mod scidb;
pub mod session;
pub mod status;
pub mod store;
pub mod text;
pub mod ticket;
pub mod tokens;

verus! {

/// Age, in seconds, past which a session token or a ticket is expired.
pub const ITEM_EXPIRATION_SECS: u64 = 86400;

} // verus!
