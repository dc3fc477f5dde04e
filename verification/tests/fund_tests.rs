use bundlr::bundle::Signer;
use bundlr::bundlr::{
    fund_step, Bundlr, CurrencyProfile, FeeMultiplier, FundAction, FundEvent, FundState, PubInfo,
};
use bundlr::error::{ChainError, ConstructionError, FundCause, FundStep, RelayError};
use bundlr::transaction::{Tx, TxStatus};

struct StubSigner;

impl Signer for StubSigner {
    fn sign(&self, _message: &Vec<u8>) -> Vec<u8> {
        Vec::new()
    }
}

fn client(needs_fee: bool, min_confirmations: u64, max_status_polls: u64) -> Bundlr<StubSigner> {
    let pub_info = PubInfo {
        version: "0".to_string(),
        gateway: "gateway".to_string(),
        addresses: vec![("arweave".to_string(), "address".to_string())],
    };
    let profile = CurrencyProfile {
        chain: "arweave".to_string(),
        needs_fee,
        min_confirmations,
        poll_interval_ms: 100,
        max_status_polls,
    };
    Bundlr::new(pub_info, profile, StubSigner)
}

fn stub_tx(id: &str) -> Tx {
    Tx {
        id: id.to_string(),
        from: "sender".to_string(),
        to: "address".to_string(),
        amount: 25,
        fee: 3,
        block_height: 0,
        pending: true,
        confirmed: false,
    }
}

fn status(confirmations: u64) -> TxStatus {
    TxStatus { confirmations, height: 100, block_hash: "hash".to_string() }
}

/// The name of an action, for ordering assertions.
fn action_name(a: &FundAction) -> &'static str {
    match a {
        FundAction::ComputeFee { .. } => "compute_fee",
        FundAction::CreateTx { .. } => "create_tx",
        FundAction::SendTx { .. } => "send_tx",
        FundAction::QueryStatus { .. } => "query_status",
        FundAction::NotifyRelay { .. } => "notify_relay",
        FundAction::Halt => "halt",
    }
}

#[test]
fn poller_confirms_only_on_third_status() {
    // a backend whose status answers are [0 confirmations, 0, threshold]
    let threshold = 3;
    let client = client(true, threshold, 10);
    let (w, state, action) = client.fund_init(40, None).unwrap();
    assert!(matches!(action, FundAction::ComputeFee { amount: 40, .. }));

    let (state, action) = fund_step(&w, state, FundEvent::FeeComputed { fee: 7 });
    assert!(matches!(action, FundAction::CreateTx { amount: 40, fee: 7, .. }));
    let (state, action) = fund_step(&w, state, FundEvent::TxCreated { result: Ok(stub_tx("tx-1")) });
    assert!(matches!(action, FundAction::SendTx { .. }));
    let (mut state, action) =
        fund_step(&w, state, FundEvent::TxSent { result: Ok(stub_tx("tx-1")) });
    assert_eq!(action_name(&action), "query_status");

    let answers = [0, 0, threshold];
    let mut resolved_at = None;
    for (i, c) in answers.iter().enumerate() {
        let (next, action) =
            fund_step(&w, state, FundEvent::StatusChecked { result: Ok(status(*c)) });
        state = next;
        match action {
            FundAction::QueryStatus { .. } => {}
            FundAction::NotifyRelay { tx_id } => {
                assert_eq!(tx_id, "tx-1");
                resolved_at = Some(i);
                break;
            }
            other => panic!("unexpected action {}", action_name(&other)),
        }
    }
    // resolved only after the third query, never earlier
    assert_eq!(resolved_at, Some(2));
}

#[test]
fn notify_never_precedes_threshold() {
    // a spy pair: record every action; the relay-notify step must come
    // only after a status answer at or above the threshold
    let threshold = 2;
    let client = client(false, threshold, 10);
    let (w, mut state, _action) = client.fund_init(5, None).unwrap();
    let script = [
        FundEvent::TxCreated { result: Ok(stub_tx("t")) },
        FundEvent::TxSent { result: Ok(stub_tx("t")) },
        FundEvent::StatusChecked { result: Ok(status(0)) },
        FundEvent::StatusChecked { result: Err(ChainError::NotFound) },
        FundEvent::StatusChecked { result: Ok(status(1)) },
        FundEvent::StatusChecked { result: Ok(status(2)) },
        FundEvent::RelayAcked { result: Ok("ok".to_string()) },
    ];
    let mut seen = Vec::new();
    let mut last_confirmations = 0;
    for e in script {
        if let FundEvent::StatusChecked { result: Ok(st) } = &e {
            last_confirmations = st.confirmations;
        }
        let (next, a) = fund_step(&w, state, e);
        seen.push(action_name(&a));
        if seen.last() == Some(&"notify_relay") {
            assert!(last_confirmations >= threshold, "notified before the threshold");
        }
        state = next;
    }
    assert_eq!(
        seen,
        vec![
            "send_tx",
            "query_status",
            "query_status",
            "query_status",
            "query_status",
            "notify_relay",
            "halt"
        ]
    );
    assert!(matches!(state, FundState::Finished { outcome: Ok(true) }));
}

#[test]
fn should_fund_address_correctly() {
    // needs_fee == false: the fee is exactly zero and the workflow still
    // walks all five steps to a successful end
    let client = client(false, 1, 10);
    let (w, state, action) = client.fund_init(25, None).unwrap();
    match &action {
        FundAction::CreateTx { amount, to, fee } => {
            assert_eq!(*amount, 25);
            assert_eq!(to, "address");
            assert_eq!(*fee, 0, "a backend without fees funds with a zero fee");
        }
        other => panic!("unexpected action {}", action_name(other)),
    }
    let (state, action) = fund_step(&w, state, FundEvent::TxCreated { result: Ok(stub_tx("z")) });
    assert_eq!(action_name(&action), "send_tx");
    let (state, action) = fund_step(&w, state, FundEvent::TxSent { result: Ok(stub_tx("z")) });
    assert_eq!(action_name(&action), "query_status");
    let (state, action) =
        fund_step(&w, state, FundEvent::StatusChecked { result: Ok(status(1)) });
    assert_eq!(action_name(&action), "notify_relay");
    let (state, action) =
        fund_step(&w, state, FundEvent::RelayAcked { result: Ok("credited".to_string()) });
    assert_eq!(action_name(&action), "halt");
    assert!(matches!(state, FundState::Finished { outcome: Ok(true) }));
}

#[test]
fn fund_fails_without_deposit_address() {
    let mut client = client(false, 1, 10);
    client.profile.chain = "chain-y".to_string();
    let err = client.fund_init(5, None).unwrap_err();
    assert_eq!(err.step, FundStep::ResolveAddress);
    assert_eq!(err.cause, FundCause::MissingAddress);
}

#[test]
fn custom_multiplier_reaches_fee_computation() {
    let client = client(true, 1, 10);
    let m = FeeMultiplier { numerator: 3, denominator: 2 };
    let (_, _, action) = client.fund_init(8, Some(m)).unwrap();
    match action {
        FundAction::ComputeFee { amount, to, multiplier } => {
            assert_eq!(amount, 8);
            assert_eq!(to, "address");
            assert_eq!(multiplier, m);
        }
        other => panic!("unexpected action {}", action_name(&other)),
    }
}

#[test]
fn fatal_chain_error_stops_the_poll() {
    let client = client(false, 5, 10);
    let (w, state, _) = client.fund_init(5, None).unwrap();
    let (state, _) = fund_step(&w, state, FundEvent::TxCreated { result: Ok(stub_tx("t")) });
    let (state, _) = fund_step(&w, state, FundEvent::TxSent { result: Ok(stub_tx("t")) });
    let (state, action) =
        fund_step(&w, state, FundEvent::StatusChecked { result: Err(ChainError::Invalid) });
    assert_eq!(action_name(&action), "halt");
    match state {
        FundState::Finished { outcome: Err(e) } => {
            assert_eq!(e.step, FundStep::AwaitConfirmation);
            assert_eq!(e.cause, FundCause::Chain(ChainError::Invalid));
        }
        _ => panic!("the workflow must fail on a fatal chain error"),
    }
}

#[test]
fn poller_gives_up_after_bounded_attempts() {
    // a transaction that never appears must not hang the workflow
    let client = client(false, 1, 3);
    let (w, state, _) = client.fund_init(5, None).unwrap();
    let (state, _) = fund_step(&w, state, FundEvent::TxCreated { result: Ok(stub_tx("t")) });
    let (mut state, _) = fund_step(&w, state, FundEvent::TxSent { result: Ok(stub_tx("t")) });
    let mut halted = false;
    for i in 0..3 {
        let (next, action) =
            fund_step(&w, state, FundEvent::StatusChecked { result: Err(ChainError::NotFound) });
        state = next;
        if action_name(&action) == "halt" {
            assert_eq!(i, 2, "all allowed attempts are used first");
            halted = true;
            break;
        }
    }
    assert!(halted);
    match state {
        FundState::Finished { outcome: Err(e) } => {
            assert_eq!(e.step, FundStep::AwaitConfirmation);
            assert_eq!(e.cause, FundCause::ConfirmationTimeout);
        }
        _ => panic!("the poller must time out"),
    }
}

#[test]
fn construction_failure_is_propagated() {
    let client = client(false, 1, 10);
    let (w, state, _) = client.fund_init(0, None).unwrap();
    // a backend must reject a zero amount when building the transaction
    let (state, action) = fund_step(
        &w,
        state,
        FundEvent::TxCreated { result: Err(ConstructionError::ZeroAmount) },
    );
    assert_eq!(action_name(&action), "halt");
    match state {
        FundState::Finished { outcome: Err(e) } => {
            assert_eq!(e.step, FundStep::BuildAndSend);
            assert_eq!(e.cause, FundCause::Construction(ConstructionError::ZeroAmount));
        }
        _ => panic!("a construction failure must be propagated"),
    }
}

#[test]
fn send_failure_is_propagated() {
    let client = client(false, 1, 10);
    let (w, state, _) = client.fund_init(5, None).unwrap();
    let (state, _) = fund_step(&w, state, FundEvent::TxCreated { result: Ok(stub_tx("t")) });
    let (state, action) = fund_step(
        &w,
        state,
        FundEvent::TxSent { result: Err(ChainError::InsufficientFunds) },
    );
    assert_eq!(action_name(&action), "halt");
    match state {
        FundState::Finished { outcome: Err(e) } => {
            assert_eq!(e.step, FundStep::BuildAndSend);
            assert_eq!(e.cause, FundCause::Chain(ChainError::InsufficientFunds));
        }
        _ => panic!("a send failure must be propagated"),
    }
}

#[test]
fn relay_rejection_at_notify_is_distinguishable() {
    let client = client(false, 1, 10);
    let (w, state, _) = client.fund_init(5, None).unwrap();
    let (state, _) = fund_step(&w, state, FundEvent::TxCreated { result: Ok(stub_tx("t")) });
    let (state, _) = fund_step(&w, state, FundEvent::TxSent { result: Ok(stub_tx("t")) });
    let (state, _) = fund_step(&w, state, FundEvent::StatusChecked { result: Ok(status(1)) });
    let relay_err = RelayError::UnexpectedStatus { status: 500, body: "boom".to_string() };
    let (state, _) =
        fund_step(&w, state, FundEvent::RelayAcked { result: Err(relay_err.clone()) });
    match state {
        FundState::Finished { outcome: Err(e) } => {
            // the chain transaction went out but the relay was not notified:
            // the step makes this state recoverable by retrying notification
            assert_eq!(e.step, FundStep::NotifyRelay);
            assert_eq!(e.cause, FundCause::Relay(relay_err));
        }
        _ => panic!("a relay rejection must surface"),
    }
}
