//! The relay client: relay metadata, request shapes, and the funding
//! workflow.
//!
//! The funding workflow — resolve the relay's deposit address, compute a
//! fee, build and send the chain transaction, await confirmation, notify
//! the relay — alternates backend and relay I/O with decisions. The
//! decisions are the verified state machine [`fund_step`]: the caller
//! performs each returned [`FundAction`], hands the outcome back as a
//! [`FundEvent`], and stops when the state is `Finished`. Notifying the
//! relay before the confirmation threshold is reached would let a client
//! claim credit for a reversible transaction; the machine never does
//! (see [`lemma_notify_only_after_confirmation`]).

use vstd::prelude::*;

use crate::bundle::{BundlrTx, Signer};
use crate::error::{ChainError, ConstructionError, FundCause, FundStep, FundingError, RelayError};
use crate::poll::{spec_poll_step, poll_step, PollVerdict};
use crate::tags::Tag;
use crate::transaction::{Tx, TxStatus};

verus! {

/// The relay's published metadata: protocol version, gateway
/// identifier, and the relay-controlled deposit address per
/// currency-type name. Fetched once per client lifetime.
#[derive(Clone, Debug)]
pub struct PubInfo {
    pub version: String,
    pub gateway: String,
    pub addresses: Vec<(String, String)>,
}

/// The first address recorded for `chain`, if any.
pub open spec fn spec_lookup_address(pairs: Seq<(String, String)>, chain: Seq<char>) -> Option<
    String,
>
    decreases pairs.len(),
{
    if pairs.len() == 0 {
        None
    } else if pairs[0].0@ == chain {
        Some(pairs[0].1)
    } else {
        spec_lookup_address(pairs.drop_first(), chain)
    }
}

impl PubInfo {
    /// The relay's deposit address for one currency type.
    pub fn resolve_address(&self, chain: &String) -> (r: Option<String>)
        ensures
            r == spec_lookup_address(self.addresses@, chain@),
    {
        let n = self.addresses.len();
        proof {
            assert(self.addresses@.subrange(0, n as int) =~= self.addresses@);
        }
        let mut i: usize = 0;
        while i < n
            invariant
                n == self.addresses@.len(),
                0 <= i <= n,
                spec_lookup_address(self.addresses@, chain@) == spec_lookup_address(
                    self.addresses@.subrange(i as int, n as int),
                    chain@,
                ),
            decreases n - i,
        {
            proof {
                assert(self.addresses@.subrange(i as int, n as int).drop_first()
                    =~= self.addresses@.subrange(i + 1, n as int));
            }
            if self.addresses[i].0 == *chain {
                return Some(self.addresses[i].1.clone());
            }
            i = i + 1;
        }
        None
    }
}

/// The body of the funding notification sent to the relay: the id of
/// the confirmed chain transaction.
pub struct FundBody {
    pub tx_id: String,
}

/// The static capability profile of a currency backend: its
/// currency-type name, fee policy, and confirmation policy constants.
#[derive(Clone, Debug)]
pub struct CurrencyProfile {
    /// Stable key used to select relay endpoints and address-book entries.
    pub chain: String,
    /// Whether a fee must be computed before building a transaction.
    pub needs_fee: bool,
    /// Confirmations required before a transaction counts as final.
    pub min_confirmations: u64,
    /// Milliseconds to wait between status polls.
    pub poll_interval_ms: u64,
    /// Status answers the poller may consume before giving up.
    pub max_status_polls: u64,
}

/// A fee multiplier as an exact ratio; values above one outbid
/// network congestion.
#[derive(Clone, Copy, Debug, PartialEq, Eq, Structural)]
pub struct FeeMultiplier {
    pub numerator: u64,
    pub denominator: u64,
}

impl FeeMultiplier {
    /// The neutral multiplier: scale by exactly one.
    pub fn one() -> (r: FeeMultiplier)
        ensures
            r.numerator == 1 && r.denominator == 1,
    {
        FeeMultiplier { numerator: 1, denominator: 1 }
    }
}

/// A request to the relay prepared by the client: the path below the
/// relay's base URL, and the raw body to send.
pub struct RelayRequest {
    pub path: String,
    pub body: Vec<u8>,
}

/// Accept a relay response exactly when its HTTP status is in the 2xx
/// range; anything else is a [`RelayError::UnexpectedStatus`] carrying
/// the status and body.
pub fn check_status(status: u16, body: String) -> (r: Result<String, RelayError>)
    ensures
        r is Ok <==> 200 <= status < 300,
        r matches Ok(b) ==> b@ == body@,
        r matches Err(e) ==> e matches RelayError::UnexpectedStatus {
            status: s,
            body: b,
        } && s == status && b@ == body@,
{
    if 200 <= status && status < 300 {
        Ok(body)
    } else {
        Err(RelayError::UnexpectedStatus { status, body })
    }
}

/// The parameters of one run of the funding workflow.
#[derive(Clone, Debug)]
pub struct FundWorkflow {
    /// Amount to transfer to the relay's deposit address.
    pub amount: u64,
    /// The relay's deposit address for the active chain.
    pub to: String,
    pub multiplier: FeeMultiplier,
    pub needs_fee: bool,
    pub min_confirmations: u64,
    pub max_status_polls: u64,
}

/// Where the funding workflow stands: which outcome it is waiting for.
#[derive(Debug)]
pub enum FundState {
    AwaitingFee,
    AwaitingCreate { fee: u64 },
    AwaitingSend { fee: u64 },
    AwaitingStatus { tx_id: String, polls_done: u64 },
    /// The funding transaction reached the confirmation threshold; the
    /// relay has been asked to credit the balance.
    AwaitingAck { tx_id: String, confirmations: u64 },
    Finished { outcome: Result<bool, FundingError> },
}

/// The outcome of the step the caller just performed.
#[derive(Debug)]
pub enum FundEvent {
    FeeComputed { fee: u64 },
    TxCreated { result: Result<Tx, ConstructionError> },
    TxSent { result: Result<Tx, ChainError> },
    StatusChecked { result: Result<TxStatus, ChainError> },
    RelayAcked { result: Result<String, RelayError> },
}

/// What the caller must do next. Each action is performed once; its
/// outcome comes back as the matching [`FundEvent`].
#[derive(Debug)]
pub enum FundAction {
    /// Ask the backend for the fee of sending `amount` to `to`.
    ComputeFee { amount: u64, to: String, multiplier: FeeMultiplier },
    /// Ask the backend to build the funding transaction.
    CreateTx { amount: u64, to: String, fee: u64 },
    /// Submit the built transaction to the chain.
    SendTx { tx: Tx },
    /// Query the transaction's status, after the backend's poll interval.
    QueryStatus { tx_id: String },
    /// Tell the relay the confirmed transaction id so it credits the balance.
    NotifyRelay { tx_id: String },
    /// The workflow is finished; read the outcome from the state.
    Halt,
}

/// Which events a state is waiting for.
pub open spec fn fund_accepts(s: FundState, e: FundEvent) -> bool {
    match s {
        FundState::AwaitingFee => e is FeeComputed,
        FundState::AwaitingCreate { .. } => e is TxCreated,
        FundState::AwaitingSend { .. } => e is TxSent,
        FundState::AwaitingStatus { .. } => e is StatusChecked,
        FundState::AwaitingAck { .. } => e is RelayAcked,
        FundState::Finished { .. } => false,
    }
}

/// The transition relation of the funding workflow, as a function.
pub open spec fn spec_fund_step(w: FundWorkflow, s: FundState, e: FundEvent) -> (FundState,
    FundAction,
) {
    match (s, e) {
        (FundState::AwaitingFee, FundEvent::FeeComputed { fee }) => (
            FundState::AwaitingCreate { fee },
            FundAction::CreateTx { amount: w.amount, to: w.to, fee },
        ),
        (FundState::AwaitingCreate { fee }, FundEvent::TxCreated { result }) => match result {
            Ok(tx) => (FundState::AwaitingSend { fee }, FundAction::SendTx { tx }),
            Err(ce) => (
                FundState::Finished {
                    outcome: Err(
                        FundingError {
                            step: FundStep::BuildAndSend,
                            cause: FundCause::Construction(ce),
                        },
                    ),
                },
                FundAction::Halt,
            ),
        },
        (FundState::AwaitingSend { fee }, FundEvent::TxSent { result }) => match result {
            Ok(tx) => (
                FundState::AwaitingStatus { tx_id: tx.id, polls_done: 0 },
                FundAction::QueryStatus { tx_id: tx.id },
            ),
            Err(che) => (
                FundState::Finished {
                    outcome: Err(
                        FundingError { step: FundStep::BuildAndSend, cause: FundCause::Chain(che) },
                    ),
                },
                FundAction::Halt,
            ),
        },
        (
            FundState::AwaitingStatus { tx_id, polls_done },
            FundEvent::StatusChecked { result },
        ) => match spec_poll_step(w.min_confirmations, w.max_status_polls, polls_done, result) {
            PollVerdict::Confirmed { confirmations } => (
                FundState::AwaitingAck { tx_id, confirmations },
                FundAction::NotifyRelay { tx_id },
            ),
            PollVerdict::Retry => (
                FundState::AwaitingStatus { tx_id, polls_done: (polls_done + 1) as u64 },
                FundAction::QueryStatus { tx_id },
            ),
            PollVerdict::Fatal { error } => (
                FundState::Finished {
                    outcome: Err(
                        FundingError {
                            step: FundStep::AwaitConfirmation,
                            cause: FundCause::Chain(error),
                        },
                    ),
                },
                FundAction::Halt,
            ),
            PollVerdict::TimedOut => (
                FundState::Finished {
                    outcome: Err(
                        FundingError {
                            step: FundStep::AwaitConfirmation,
                            cause: FundCause::ConfirmationTimeout,
                        },
                    ),
                },
                FundAction::Halt,
            ),
        },
        (FundState::AwaitingAck { .. }, FundEvent::RelayAcked { result }) => match result {
            Ok(_) => (FundState::Finished { outcome: Ok(true) }, FundAction::Halt),
            Err(re) => (
                FundState::Finished {
                    outcome: Err(
                        FundingError { step: FundStep::NotifyRelay, cause: FundCause::Relay(re) },
                    ),
                },
                FundAction::Halt,
            ),
        },
        _ => (s, FundAction::Halt),
    }
}

/// Advance the funding workflow by one event.
pub fn fund_step(w: &FundWorkflow, s: FundState, e: FundEvent) -> (r: (FundState, FundAction))
    requires
        fund_accepts(s, e),
    ensures
        r == spec_fund_step(*w, s, e),
{
    match (s, e) {
        (FundState::AwaitingFee, FundEvent::FeeComputed { fee }) => (
            FundState::AwaitingCreate { fee },
            FundAction::CreateTx { amount: w.amount, to: w.to.clone(), fee },
        ),
        (FundState::AwaitingCreate { fee }, FundEvent::TxCreated { result }) => match result {
            Ok(tx) => (FundState::AwaitingSend { fee }, FundAction::SendTx { tx }),
            Err(ce) => (
                FundState::Finished {
                    outcome: Err(
                        FundingError {
                            step: FundStep::BuildAndSend,
                            cause: FundCause::Construction(ce),
                        },
                    ),
                },
                FundAction::Halt,
            ),
        },
        (FundState::AwaitingSend { fee: _ }, FundEvent::TxSent { result }) => match result {
            Ok(tx) => {
                let id = tx.id.clone();
                (
                    FundState::AwaitingStatus { tx_id: tx.id, polls_done: 0 },
                    FundAction::QueryStatus { tx_id: id },
                )
            },
            Err(che) => (
                FundState::Finished {
                    outcome: Err(
                        FundingError { step: FundStep::BuildAndSend, cause: FundCause::Chain(che) },
                    ),
                },
                FundAction::Halt,
            ),
        },
        (
            FundState::AwaitingStatus { tx_id, polls_done },
            FundEvent::StatusChecked { result },
        ) => match poll_step(w.min_confirmations, w.max_status_polls, polls_done, result) {
            PollVerdict::Confirmed { confirmations } => {
                let id = tx_id.clone();
                (
                    FundState::AwaitingAck { tx_id, confirmations },
                    FundAction::NotifyRelay { tx_id: id },
                )
            },
            PollVerdict::Retry => {
                let id = tx_id.clone();
                (
                    FundState::AwaitingStatus { tx_id, polls_done: polls_done + 1 },
                    FundAction::QueryStatus { tx_id: id },
                )
            },
            PollVerdict::Fatal { error } => (
                FundState::Finished {
                    outcome: Err(
                        FundingError {
                            step: FundStep::AwaitConfirmation,
                            cause: FundCause::Chain(error),
                        },
                    ),
                },
                FundAction::Halt,
            ),
            PollVerdict::TimedOut => (
                FundState::Finished {
                    outcome: Err(
                        FundingError {
                            step: FundStep::AwaitConfirmation,
                            cause: FundCause::ConfirmationTimeout,
                        },
                    ),
                },
                FundAction::Halt,
            ),
        },
        (FundState::AwaitingAck { tx_id, confirmations }, FundEvent::RelayAcked { result }) => {
            match result {
                Ok(_) => (FundState::Finished { outcome: Ok(true) }, FundAction::Halt),
                Err(re) => (
                    FundState::Finished {
                        outcome: Err(
                            FundingError {
                                step: FundStep::NotifyRelay,
                                cause: FundCause::Relay(re),
                            },
                        ),
                    },
                    FundAction::Halt,
                ),
            }
        },
        (s2, _) => (s2, FundAction::Halt),
    }
}

/// The relay never hears of the funding transaction before the chain
/// confirms it: a `NotifyRelay` action arises only from a status answer
/// whose confirmation count has reached the workflow's threshold.
pub proof fn lemma_notify_only_after_confirmation(w: FundWorkflow, s: FundState, e: FundEvent)
    ensures
        spec_fund_step(w, s, e).1 matches FundAction::NotifyRelay { tx_id } ==> {
            &&& s matches FundState::AwaitingStatus { tx_id: id, .. } && id == tx_id
            &&& e matches FundEvent::StatusChecked { result: Ok(st) } && st.confirmations
                >= w.min_confirmations
        },
{
}

/// States of the workflow past the confirmation step always carry
/// evidence of at least the threshold's worth of confirmations.
pub open spec fn fund_inv(w: FundWorkflow, s: FundState) -> bool {
    s matches FundState::AwaitingAck { confirmations, .. } ==> confirmations
        >= w.min_confirmations
}

/// Every transition preserves the confirmation evidence invariant.
pub proof fn lemma_fund_inv_preserved(w: FundWorkflow, s: FundState, e: FundEvent)
    requires
        fund_inv(w, s),
    ensures
        fund_inv(w, spec_fund_step(w, s, e).0),
{
}

/// The poll loop cannot run forever: a transaction that never reaches
/// the threshold keeps the workflow in the status state only while the
/// backend's poll budget lasts, with the count of consumed answers
/// growing by one each time.
pub proof fn lemma_poll_budget_decreases(w: FundWorkflow, s: FundState, e: FundEvent)
    requires
        fund_accepts(s, e),
    ensures
        s matches FundState::AwaitingStatus { polls_done: before, .. } ==> (spec_fund_step(
            w,
            s,
            e,
        ).0 matches FundState::AwaitingStatus { polls_done: after, .. } ==> after == before + 1
            && after < w.max_status_polls),
{
}

/// On an expected event, the machine asks the caller to stop exactly
/// when the workflow has reached its final state, so a driving loop
/// that breaks on `Halt` always finds the outcome in `Finished`.
pub proof fn lemma_halt_iff_finished(w: FundWorkflow, s: FundState, e: FundEvent)
    requires
        fund_accepts(s, e),
    ensures
        spec_fund_step(w, s, e).1 is Halt <==> spec_fund_step(w, s, e).0 is Finished,
{
}

/// The relay client. Holds the relay's published metadata, the active
/// backend's capability profile, and its signer.
pub struct Bundlr<S: Signer> {
    pub pub_info: PubInfo,
    pub profile: CurrencyProfile,
    pub signer: S,
}

/// How [`Bundlr::fund_init`] starts a workflow: a zero fee and an
/// immediate build when the backend needs no fee, otherwise a fee
/// computation first.
pub open spec fn spec_fund_init(w: FundWorkflow) -> (FundState, FundAction) {
    if w.needs_fee {
        (
            FundState::AwaitingFee,
            FundAction::ComputeFee { amount: w.amount, to: w.to, multiplier: w.multiplier },
        )
    } else {
        (
            FundState::AwaitingCreate { fee: 0 },
            FundAction::CreateTx { amount: w.amount, to: w.to, fee: 0 },
        )
    }
}

impl<S: Signer> Bundlr<S> {
    /// Build a client from the relay metadata fetched at construction
    /// and the active backend's profile and signer.
    pub fn new(pub_info: PubInfo, profile: CurrencyProfile, signer: S) -> (b: Bundlr<S>)
        ensures
            b.pub_info == pub_info,
            b.profile == profile,
            b.signer == signer,
    {
        Bundlr { pub_info, profile, signer }
    }

    /// Assemble a signed bundle transaction from payload bytes and tags,
    /// signing with the active backend's signer.
    pub fn create_transaction_with_tags(&self, data: Vec<u8>, tags: Vec<Tag>) -> (tx: BundlrTx)
        ensures
            tx.data@ == data@,
            tx.tags.deep_view() == tags.deep_view(),
            crate::bundle::tags_wf(tags.deep_view()),
    {
        BundlrTx::create_with_tags(data, tags, &self.signer)
    }

    /// Prepare the submission of a signed bundle: the `tx/{chain}` path
    /// and the bundle's binary wire form.
    pub fn send_transaction(&self, tx: BundlrTx) -> (r: RelayRequest)
        ensures
            r.path@ == "tx/"@ + self.profile.chain@,
            r.body@ == crate::bundle::spec_wire(tx.signature@, tx.tags.deep_view(), tx.data@),
    {
        let path = String::from_str("tx/").concat(self.profile.chain.as_str());
        let body = tx.into_inner();
        RelayRequest { path, body }
    }

    /// The `account/balance/{chain}` path used both to query the balance
    /// and to notify the relay of a funding transaction.
    pub fn balance_path(&self) -> (r: String)
        ensures
            r@ == "account/balance/"@ + self.profile.chain@,
    {
        String::from_str("account/balance/").concat(self.profile.chain.as_str())
    }

    /// Start the funding workflow for `amount`, with an optional fee
    /// multiplier (defaulting to one). Fails fatally when the relay
    /// published no deposit address for the active chain.
    pub fn fund_init(&self, amount: u64, multiplier: Option<FeeMultiplier>) -> (r: Result<
        (FundWorkflow, FundState, FundAction),
        FundingError,
    >)
        ensures
            r is Ok <==> spec_lookup_address(self.pub_info.addresses@, self.profile.chain@)
                is Some,
            r matches Ok((w, s, a)) ==> {
                &&& w.amount == amount
                &&& Some(w.to) == spec_lookup_address(
                    self.pub_info.addresses@,
                    self.profile.chain@,
                )
                &&& w.multiplier == (if multiplier is Some {
                    multiplier->0
                } else {
                    FeeMultiplier { numerator: 1, denominator: 1 }
                })
                &&& w.needs_fee == self.profile.needs_fee
                &&& w.min_confirmations == self.profile.min_confirmations
                &&& w.max_status_polls == self.profile.max_status_polls
                &&& (s, a) == spec_fund_init(w)
            },
            r matches Err(e) ==> e == (FundingError {
                step: FundStep::ResolveAddress,
                cause: FundCause::MissingAddress,
            }),
    {
        let to = match self.pub_info.resolve_address(&self.profile.chain) {
            Some(to) => to,
            None => {
                return Err(
                    FundingError { step: FundStep::ResolveAddress, cause: FundCause::MissingAddress },
                );
            },
        };
        let m = match multiplier {
            Some(m) => m,
            None => FeeMultiplier::one(),
        };
        let w = FundWorkflow {
            amount,
            to,
            multiplier: m,
            needs_fee: self.profile.needs_fee,
            min_confirmations: self.profile.min_confirmations,
            max_status_polls: self.profile.max_status_polls,
        };
        if w.needs_fee {
            let a = FundAction::ComputeFee {
                amount: w.amount,
                to: w.to.clone(),
                multiplier: w.multiplier,
            };
            Ok((w, FundState::AwaitingFee, a))
        } else {
            let a = FundAction::CreateTx { amount: w.amount, to: w.to.clone(), fee: 0 };
            Ok((w, FundState::AwaitingCreate { fee: 0 }, a))
        }
    }
}

/// A backend that needs no fee funds with a fee of exactly zero: the
/// workflow starts at the build step with fee `0`, and no fee
/// computation is ever requested.
pub proof fn lemma_zero_fee_without_fee_policy(w: FundWorkflow)
    requires
        !w.needs_fee,
    ensures
        spec_fund_init(w) == (
            FundState::AwaitingCreate { fee: 0u64 },
            FundAction::CreateTx { amount: w.amount, to: w.to, fee: 0u64 },
        ),
        !(spec_fund_init(w).1 is ComputeFee),
{
}

} // verus!
