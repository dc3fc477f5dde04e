//! Client-side logic for a transaction-bundling relay: building signed
//! data bundles, parsing relay balances, and driving the funding workflow
//! (fee, chain transaction, confirmation polling, relay notification)
//! as a verified state machine.

use vstd::prelude::*;

pub mod balance;
pub mod bundle;
pub mod bundlr;
pub mod error;
pub mod poll;
pub mod tags;
pub mod transaction;
pub mod wire;

verus! {

} // verus!
