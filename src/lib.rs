//! Routes Discord message identifiers to trade hashes and back.
//!
//! The library holds the record model, the error taxonomy, an in-memory
//! uniqueness store and the routing decisions; all of it is verified.
use vstd::prelude::*;

pub mod errors;
pub mod model;
pub mod router;
pub mod store;

pub use errors::{Errors, HashRoutingError};
pub use model::DiscordMessage;
pub use router::{lookup_by_trade_hash, register};
pub use store::{MemoryStore, StoreError};

verus! {

} // verus!
