//! Error taxonomy of the relay client.
//!
//! - [`ConstructionError`]: invalid inputs to transaction building; never retried.
//! - [`ChainError`]: submission or status-query failure against a chain;
//!   transient failures are looped on by the confirmation poller, fatal ones are not.
//! - [`RelayError`]: non-success HTTP status or unusable response from the relay.
//! - [`FundingError`]: failure of the funding workflow, recording the step at
//!   which it occurred together with the underlying cause.

use vstd::prelude::*;

verus! {

/// Invalid inputs to transaction building.
#[derive(Clone, Debug, PartialEq, Eq)]
pub enum ConstructionError {
    ZeroAmount,
    MalformedRecipient,
}

/// Failure reported by a currency backend's chain.
#[derive(Clone, Debug, PartialEq, Eq)]
pub enum ChainError {
    /// The transaction is not yet known to the chain; treated as still pending.
    NotFound,
    /// The chain could not be reached; a transient network failure.
    NetworkUnreachable,
    InsufficientFunds,
    /// The chain rejected the transaction.
    Rejected,
    /// The transaction is permanently invalid.
    Invalid,
}

impl ChainError {
    /// Transient failures are retried by the confirmation poller;
    /// fatal ones stop it.
    pub open spec fn spec_is_transient(self) -> bool {
        self is NotFound || self is NetworkUnreachable
    }

    pub fn is_transient(&self) -> (r: bool)
        ensures
            r == self.spec_is_transient(),
    {
        match self {
            ChainError::NotFound => true,
            ChainError::NetworkUnreachable => true,
            _ => false,
        }
    }
}

/// Non-success HTTP status or unusable response from the relay.
#[derive(Clone, Debug, PartialEq, Eq)]
pub enum RelayError {
    /// The relay answered with a status outside the 2xx range.
    UnexpectedStatus { status: u16, body: String },
    /// The relay's response body could not be interpreted.
    MalformedResponse,
    /// The relay's balance field is not a non-negative decimal integer.
    InvalidBalance,
}

/// The step of the funding workflow at which a failure occurred.
#[derive(Clone, Copy, Debug, PartialEq, Eq, Structural)]
pub enum FundStep {
    ResolveAddress,
    ComputeFee,
    BuildAndSend,
    AwaitConfirmation,
    NotifyRelay,
}

/// The underlying cause of a funding failure.
#[derive(Clone, Debug, PartialEq, Eq)]
pub enum FundCause {
    /// The relay published no deposit address for the active chain.
    MissingAddress,
    Construction(ConstructionError),
    Chain(ChainError),
    /// The poller gave up before the confirmation threshold was reached.
    ConfirmationTimeout,
    Relay(RelayError),
}

/// Composite failure of the funding workflow: the step at which it
/// occurred, and the underlying cause.
#[derive(Clone, Debug, PartialEq, Eq)]
pub struct FundingError {
    pub step: FundStep,
    pub cause: FundCause,
}

} // verus!
