//! Confirmation polling: the decision rule applied to each status answer.
//!
//! The poller repeatedly queries a backend for a transaction's status.
//! Each answer is judged by [`poll_step`]: enough confirmations means the
//! transaction is confirmed; a transient failure or too few confirmations
//! means another query (after the backend's poll interval); a fatal chain
//! error stops the poll; and a bounded number of attempts guards against
//! a transaction that never appears.

use vstd::prelude::*;

use crate::error::ChainError;
use crate::transaction::TxStatus;

verus! {

/// The verdict on one status answer.
#[derive(Clone, Debug)]
pub enum PollVerdict {
    /// The confirmation threshold is reached.
    Confirmed { confirmations: u64 },
    /// Not yet decisive; query again after the poll interval.
    Retry,
    /// A fatal chain error; stop polling and propagate.
    Fatal { error: ChainError },
    /// The bounded number of status queries is used up.
    TimedOut,
}

/// What [`poll_step`] returns, as a function of the inputs.
///
/// `polls_done` counts the status answers already judged before this one,
/// so `polls_done + 1` answers have been used once this one is judged.
pub open spec fn spec_poll_step(
    threshold: u64,
    max_polls: u64,
    polls_done: u64,
    status: Result<TxStatus, ChainError>,
) -> PollVerdict {
    match status {
        Ok(st) => {
            if st.confirmations >= threshold {
                PollVerdict::Confirmed { confirmations: st.confirmations }
            } else if polls_done + 1 < max_polls {
                PollVerdict::Retry
            } else {
                PollVerdict::TimedOut
            }
        },
        Err(e) => {
            if !e.spec_is_transient() {
                PollVerdict::Fatal { error: e }
            } else if polls_done + 1 < max_polls {
                PollVerdict::Retry
            } else {
                PollVerdict::TimedOut
            }
        },
    }
}

/// Judge one status answer of the backend.
pub fn poll_step(
    threshold: u64,
    max_polls: u64,
    polls_done: u64,
    status: Result<TxStatus, ChainError>,
) -> (v: PollVerdict)
    ensures
        v == spec_poll_step(threshold, max_polls, polls_done, status),
{
    let another_allowed: bool = max_polls > 0 && polls_done < max_polls - 1;
    match status {
        Ok(st) => {
            if st.confirmations >= threshold {
                PollVerdict::Confirmed { confirmations: st.confirmations }
            } else if another_allowed {
                PollVerdict::Retry
            } else {
                PollVerdict::TimedOut
            }
        },
        Err(e) => {
            if !e.is_transient() {
                PollVerdict::Fatal { error: e }
            } else if another_allowed {
                PollVerdict::Retry
            } else {
                PollVerdict::TimedOut
            }
        },
    }
}

/// A confirmed verdict is possible only when the answer carries at least
/// `threshold` confirmations; it is never produced by a failed query.
pub proof fn lemma_confirmed_needs_threshold(
    threshold: u64,
    max_polls: u64,
    polls_done: u64,
    status: Result<TxStatus, ChainError>,
)
    ensures
        spec_poll_step(threshold, max_polls, polls_done, status) matches
            PollVerdict::Confirmed { confirmations } ==> {
            &&& status matches Ok(st) && st.confirmations == confirmations
            &&& confirmations >= threshold
        },
{
}

} // verus!
