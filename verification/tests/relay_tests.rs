use bundlr::balance::BalanceResData;
use bundlr::bundle::Signer;
use bundlr::bundlr::{check_status, Bundlr, CurrencyProfile, PubInfo};
use bundlr::error::RelayError;
use bundlr::tags::Tag;

struct StubSigner;

impl Signer for StubSigner {
    fn sign(&self, message: &Vec<u8>) -> Vec<u8> {
        message.clone()
    }
}

fn client() -> Bundlr<StubSigner> {
    let pub_info = PubInfo {
        version: "0".to_string(),
        gateway: "g".to_string(),
        addresses: vec![("chain-x".to_string(), "addr1".to_string())],
    };
    let profile = CurrencyProfile {
        chain: "chain-x".to_string(),
        needs_fee: false,
        min_confirmations: 1,
        poll_interval_ms: 10,
        max_status_polls: 5,
    };
    Bundlr::new(pub_info, profile, StubSigner)
}

#[test]
fn info_and_balance_scenario() {
    // relay /info: {"version":"0","gateway":"g","addresses":{"chain-x":"addr1"}};
    // the balance endpoint answers {"balance":"10"} for addr1
    let client = client();
    assert_eq!(client.pub_info.version, "0");
    assert_eq!(client.pub_info.gateway, "g");
    let deposit = client.pub_info.resolve_address(&"chain-x".to_string());
    assert_eq!(deposit, Some("addr1".to_string()));
    let body = BalanceResData { balance: "10".to_string() };
    let balance = body.parse().unwrap();
    assert_eq!(balance.digits, vec![1, 0]);
}

#[test]
fn unknown_chain_has_no_address() {
    let client = client();
    assert_eq!(client.pub_info.resolve_address(&"chain-y".to_string()), None);
}

#[test]
fn duplicate_chain_entries_resolve_to_the_first() {
    let pub_info = PubInfo {
        version: "0".to_string(),
        gateway: "g".to_string(),
        addresses: vec![
            ("chain-x".to_string(), "first".to_string()),
            ("chain-x".to_string(), "second".to_string()),
        ],
    };
    assert_eq!(
        pub_info.resolve_address(&"chain-x".to_string()),
        Some("first".to_string())
    );
}

#[test]
fn should_send_transactions_correctly() {
    // the submission request targets tx/{chain} with the bundle's wire bytes
    let client = client();
    let tx = client.create_transaction_with_tags(
        Vec::from("hello"),
        vec![Tag::new("name".to_string(), "value".to_string())],
    );
    let wire_copy = {
        let tx2 = client.create_transaction_with_tags(
            Vec::from("hello"),
            vec![Tag::new("name".to_string(), "value".to_string())],
        );
        tx2.into_inner()
    };
    let request = client.send_transaction(tx);
    assert_eq!(request.path, "tx/chain-x");
    assert_eq!(request.body, wire_copy);
}

#[test]
fn http_500_yields_a_relay_error_and_no_resend() {
    // a 500 yields a RelayError, and nothing retries the payload
    let answer = check_status(500, "server error".to_string());
    assert_eq!(
        answer,
        Err(RelayError::UnexpectedStatus { status: 500, body: "server error".to_string() })
    );
    for status in [199u16, 300, 301, 404, 502] {
        assert!(check_status(status, String::new()).is_err());
    }
    for status in [200u16, 201, 204, 299] {
        assert_eq!(check_status(status, "ack".to_string()), Ok("ack".to_string()));
    }
}
