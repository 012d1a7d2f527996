//! Framing and key-store behaviour on concrete values.

use auth_relay::frame::{challenge_frame, event_frame, json_escape_bytes};
use auth_relay::keystore::{bytes_eq, KeyStore};

#[test]
fn event_frame_exact_bytes() {
    let out = event_frame(b"device123", b"hello");
    assert_eq!(out, b"{\"from\":\"device123\",\"data\":\"hello\"}".to_vec());
    let empty = event_frame(b"", b"");
    assert_eq!(empty, b"{\"from\":\"\",\"data\":\"\"}".to_vec());
}

#[test]
fn escaping_matches_the_json_grammar() {
    assert_eq!(json_escape_bytes(b"plain"), b"plain".to_vec());
    assert_eq!(json_escape_bytes(b"a\"b"), b"a\\\"b".to_vec());
    assert_eq!(json_escape_bytes(b"a\\b"), b"a\\\\b".to_vec());
    assert_eq!(json_escape_bytes(b"a\nb\tc"), b"a\\nb\\tc".to_vec());
    assert_eq!(json_escape_bytes(&[0x01u8]), b"\\u0001".to_vec());
    assert_eq!(json_escape_bytes(&[0x1fu8]), b"\\u001f".to_vec());
}

#[test]
fn escaping_agrees_with_serde_json() {
    let cases: Vec<&str> = vec![
        "hello",
        "with \"quotes\" and \\slashes\\",
        "line\nbreak\ttab\rret",
        "control:\u{1}\u{2}\u{1f}",
        "beyond ascii: \u{e9}\u{1f600}",
        "",
    ];
    for case in cases {
        let quoted = serde_json::to_string(case).expect("serialize");
        let inner = &quoted.as_bytes()[1..quoted.len() - 1];
        assert_eq!(json_escape_bytes(case.as_bytes()), inner.to_vec());
    }
}

#[test]
fn whole_event_frame_agrees_with_serde_json() {
    let from = "dev\"ice";
    let data = "pay\\load\n";
    let expected = format!(
        "{{\"from\":{},\"data\":{}}}",
        serde_json::to_string(from).expect("serialize"),
        serde_json::to_string(data).expect("serialize")
    );
    assert_eq!(
        event_frame(from.as_bytes(), data.as_bytes()),
        expected.into_bytes()
    );
}

#[test]
fn challenge_frame_wraps_base64_text() {
    let out = challenge_frame(b"AAAA====");
    assert_eq!(out, b"{\"challenge\":\"AAAA====\"}".to_vec());
}

#[test]
fn keystore_lookup_and_override() {
    let mut ks = KeyStore::new();
    assert!(ks.lookup(&b"device123".to_vec()).is_none());
    ks.add(b"device123".to_vec(), b"key-one".to_vec());
    ks.add(b"other".to_vec(), b"key-two".to_vec());
    assert_eq!(
        ks.lookup(&b"device123".to_vec()).unwrap(),
        &b"key-one".to_vec()
    );
    assert_eq!(ks.lookup(&b"other".to_vec()).unwrap(), &b"key-two".to_vec());
    assert!(ks.lookup(&b"ghost".to_vec()).is_none());
    // A later entry for the same identity replaces the earlier one.
    ks.add(b"device123".to_vec(), b"key-three".to_vec());
    assert_eq!(
        ks.lookup(&b"device123".to_vec()).unwrap(),
        &b"key-three".to_vec()
    );
}

#[test]
fn byte_equality() {
    assert!(bytes_eq(&b"abc".to_vec(), &b"abc".to_vec()));
    assert!(!bytes_eq(&b"abc".to_vec(), &b"abd".to_vec()));
    assert!(!bytes_eq(&b"abc".to_vec(), &b"ab".to_vec()));
    assert!(bytes_eq(&Vec::new(), &Vec::new()));
}
