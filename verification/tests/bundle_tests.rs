use bundlr::bundle::{parse_tags, BundlrTx, Signer};
use bundlr::bundlr::{Bundlr, CurrencyProfile, PubInfo};
use bundlr::tags::Tag;

struct StubSigner;

impl Signer for StubSigner {
    fn sign(&self, message: &Vec<u8>) -> Vec<u8> {
        // a fake signature that still depends on the message
        vec![0xAB, message.len() as u8]
    }
}

fn test_client() -> Bundlr<StubSigner> {
    let pub_info = PubInfo {
        version: "0".to_string(),
        gateway: "gateway".to_string(),
        addresses: vec![("arweave".to_string(), "address".to_string())],
    };
    let profile = CurrencyProfile {
        chain: "arweave".to_string(),
        needs_fee: true,
        min_confirmations: 10,
        poll_interval_ms: 100,
        max_status_polls: 20,
    };
    Bundlr::new(pub_info, profile, StubSigner)
}

fn le8(x: u64) -> Vec<u8> {
    x.to_le_bytes().to_vec()
}

#[test]
fn tags_round_trip_in_order() {
    let client = test_client();
    let tags = vec![
        Tag::new("name".to_string(), "value".to_string()),
        Tag::new("Content-Type".to_string(), "text/plain".to_string()),
        Tag::new("name".to_string(), "other".to_string()),
    ];
    let tx = client.create_transaction_with_tags(Vec::from("hello"), tags);
    let section = tx.tag_section();
    let parsed = parse_tags(&section).expect("the tag section must parse");
    assert_eq!(parsed.len(), 3);
    assert_eq!(parsed[0].name, "name");
    assert_eq!(parsed[0].value, "value");
    assert_eq!(parsed[1].name, "Content-Type");
    assert_eq!(parsed[1].value, "text/plain");
    assert_eq!(parsed[2].name, "name");
    assert_eq!(parsed[2].value, "other");
}

#[test]
fn empty_tag_list_round_trips() {
    let tx = BundlrTx::create_with_tags(vec![1, 2, 3], vec![], &StubSigner);
    let section = tx.tag_section();
    assert_eq!(section, le8(0));
    let parsed = parse_tags(&section).expect("the empty tag section must parse");
    assert!(parsed.is_empty());
}

#[test]
fn unicode_and_empty_strings_round_trip() {
    let tags = vec![
        Tag::new("".to_string(), "".to_string()),
        Tag::new("ключ".to_string(), "värde ✓".to_string()),
    ];
    let tx = BundlrTx::create_with_tags(vec![], tags, &StubSigner);
    let parsed = parse_tags(&tx.tag_section()).expect("the tag section must parse");
    assert_eq!(parsed[0].name, "");
    assert_eq!(parsed[0].value, "");
    assert_eq!(parsed[1].name, "ключ");
    assert_eq!(parsed[1].value, "värde ✓");
}

#[test]
fn tampered_tag_section_is_rejected() {
    let tags = vec![Tag::new("a".to_string(), "b".to_string())];
    let tx = BundlrTx::create_with_tags(vec![], tags, &StubSigner);
    let section = tx.tag_section();

    let mut truncated = section.clone();
    truncated.pop();
    assert!(parse_tags(&truncated).is_none());

    let mut extended = section.clone();
    extended.push(0);
    assert!(parse_tags(&extended).is_none());

    let mut bad_count = section.clone();
    bad_count[0] = bad_count[0].wrapping_add(1);
    assert!(parse_tags(&bad_count).is_none());

    let mut bad_utf8 = section.clone();
    // the single-byte name "a" sits right after count and name length
    bad_utf8[16] = 0xFF;
    assert!(parse_tags(&bad_utf8).is_none());

    assert!(parse_tags(&Vec::new()).is_none());
}

#[test]
fn wire_form_is_length_prefixed() {
    let tags = vec![Tag::new("k".to_string(), "v".to_string())];
    let tx = BundlrTx::create_with_tags(Vec::from("payload"), tags, &StubSigner);
    let signature = tx.signature.clone();
    let section = tx.tag_section();
    let wire = tx.into_inner();

    let mut expected = le8(signature.len() as u64);
    expected.extend_from_slice(&signature);
    expected.extend_from_slice(&section);
    expected.extend_from_slice(b"payload");
    assert_eq!(wire, expected);

    // the signature covers tag section + payload
    let mut message = section.clone();
    message.extend_from_slice(b"payload");
    assert_eq!(signature, vec![0xAB, message.len() as u8]);
}
