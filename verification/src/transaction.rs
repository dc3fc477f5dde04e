//! Chain-transaction data as reported by a currency backend.

use vstd::prelude::*;

verus! {

/// A point-in-time confirmation snapshot of a chain transaction,
/// recreated on each status poll.
#[derive(Clone, Debug)]
pub struct TxStatus {
    pub confirmations: u64,
    pub height: u128,
    pub block_hash: String,
}

/// A submitted chain transaction. Created by a currency backend upon
/// submission; updated only by re-querying chain status.
#[derive(Clone, Debug)]
pub struct Tx {
    pub id: String,
    pub from: String,
    pub to: String,
    pub amount: u64,
    pub fee: u64,
    pub block_height: u128,
    pub pending: bool,
    pub confirmed: bool,
}

} // verus!
