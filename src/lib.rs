//! A proof-of-existence claim registry: opaque, length-bounded byte strings
//! ("claims") mapped to the account that registered them and the block height
//! of the last write.
use vstd::prelude::*;

pub mod types;
pub mod model;
mod store;
pub mod pallet;
pub mod laws;

verus! {

pub use types::{AccountId, BlockNumber, Record, Origin, Error, Event, Config};
pub use pallet::{Pallet, ensure_signed};

} // verus!
