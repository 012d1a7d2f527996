//! End-to-end handshake and fan-out scenarios, run against the real
//! outside crates: rsa signatures, base64 transport encoding, dashmap
//! registry and tokio broadcast queues.

use auth_relay::conn::{Conn, HandshakeReply, Phase};
use auth_relay::credential::{generate, verify};
use auth_relay::frame::event_frame;
use auth_relay::keystore::KeyStore;
use auth_relay::msg::Incoming;
use auth_relay::registry::{registry_len, registry_new, Registry};

use base64::Engine;
use rsa::pkcs1::EncodeRsaPublicKey;
use rsa::pkcs1v15::Pkcs1v15Sign;
use rsa::{RsaPrivateKey, RsaPublicKey};

fn test_key() -> (RsaPrivateKey, Vec<u8>) {
    let mut rng = rand::rngs::OsRng;
    let private = RsaPrivateKey::new(&mut rng, 512).expect("key generation");
    let public = RsaPublicKey::from(&private);
    let der = public.to_pkcs1_der().expect("der").as_bytes().to_vec();
    (private, der)
}

fn sign_nonce(private: &RsaPrivateKey, nonce: &[u8]) -> Vec<u8> {
    let sig = private
        .sign(Pkcs1v15Sign::new_unprefixed(), nonce)
        .expect("sign");
    base64::engine::general_purpose::STANDARD
        .encode(sig)
        .into_bytes()
}

fn authenticate(
    ks: &KeyStore,
    reg: &mut Registry,
    private: &RsaPrivateKey,
    id: &[u8],
) -> (Conn, auth_relay::registry::EventReceiver) {
    let mut conn = Conn::new();
    let nonce = generate();
    let _frame = conn.begin_handshake(nonce.clone());
    let signature = sign_nonce(private, &nonce);
    let reply = conn.on_challenge_reply(
        Some(Incoming::Auth {
            client_id: id.to_vec(),
            signature,
        }),
        ks,
        reg,
    );
    match reply {
        HandshakeReply::Accepted { events } => (conn, events),
        _ => panic!("expected a successful authentication"),
    }
}

#[test]
fn challenge_then_auth_then_event_roundtrip() {
    let (private, der) = test_key();
    let mut ks = KeyStore::new();
    ks.add(b"device123".to_vec(), der);
    let mut reg = registry_new();

    let mut conn = Conn::new();
    assert!(matches!(conn.phase(), Phase::Connected));

    let nonce = generate();
    assert_eq!(nonce.len(), 32);
    let frame = conn.begin_handshake(nonce.clone());
    let expected = format!(
        "{{\"challenge\":\"{}\"}}",
        base64::engine::general_purpose::STANDARD.encode(&nonce)
    );
    assert_eq!(frame, expected.into_bytes());
    assert!(matches!(conn.phase(), Phase::ChallengeSent));

    let signature = sign_nonce(&private, &nonce);
    let reply = conn.on_challenge_reply(
        Some(Incoming::Auth {
            client_id: b"device123".to_vec(),
            signature,
        }),
        &ks,
        &mut reg,
    );
    let mut events = match reply {
        HandshakeReply::Accepted { events } => events,
        _ => panic!("auth should succeed"),
    };
    assert!(matches!(conn.phase(), Phase::Authenticated));
    assert_eq!(registry_len(&reg), 1);

    let published = conn.on_client_message(
        Some(Incoming::Event {
            data: b"hello".to_vec(),
        }),
        &reg,
    );
    let recipients = published.expect("an event is published");
    assert_eq!(recipients, vec![b"device123".to_vec()]);

    let (from, data) = events.try_recv().expect("own event is delivered");
    assert_eq!(from, b"device123".to_vec());
    assert_eq!(data, b"hello".to_vec());
    let out = event_frame(&from, &data);
    assert_eq!(out, b"{\"from\":\"device123\",\"data\":\"hello\"}".to_vec());
}

#[test]
fn stale_nonce_closes_connection_and_leaves_registry_empty() {
    let (private, der) = test_key();
    let mut ks = KeyStore::new();
    ks.add(b"device123".to_vec(), der);
    let mut reg = registry_new();

    let mut conn = Conn::new();
    let nonce = generate();
    let _frame = conn.begin_handshake(nonce);
    let stale = vec![0u8; 32];
    let signature = sign_nonce(&private, &stale);
    let reply = conn.on_challenge_reply(
        Some(Incoming::Auth {
            client_id: b"device123".to_vec(),
            signature,
        }),
        &ks,
        &mut reg,
    );
    assert!(matches!(reply, HandshakeReply::CloseSignal));
    assert!(matches!(conn.phase(), Phase::AuthFailed));
    assert_eq!(registry_len(&reg), 0);
    conn.close(&mut reg);
    assert!(matches!(conn.phase(), Phase::Closed));
    assert_eq!(registry_len(&reg), 0);
}

#[test]
fn correct_signature_verifies_and_any_flipped_bit_fails() {
    let (private, der) = test_key();
    let mut ks = KeyStore::new();
    ks.add(b"device123".to_vec(), der);

    let nonce = generate();
    let raw_sig = private
        .sign(Pkcs1v15Sign::new_unprefixed(), &nonce)
        .expect("sign");
    let good = base64::engine::general_purpose::STANDARD
        .encode(&raw_sig)
        .into_bytes();
    assert!(verify(&ks, &b"device123".to_vec(), &nonce, &good));

    for byte in 0..raw_sig.len() {
        for bit in 0..8 {
            let mut flipped = raw_sig.clone();
            flipped[byte] ^= 1 << bit;
            let sig = base64::engine::general_purpose::STANDARD
                .encode(&flipped)
                .into_bytes();
            assert!(!verify(&ks, &b"device123".to_vec(), &nonce, &sig));
        }
    }
}

#[test]
fn unknown_identity_rejected_like_bad_signature() {
    let (private, der) = test_key();
    let mut ks = KeyStore::new();
    ks.add(b"device123".to_vec(), der);
    let nonce = generate();

    // Unprovisioned identity with a well-formed signature.
    let signature = sign_nonce(&private, &nonce);
    assert!(!verify(&ks, &b"ghost".to_vec(), &nonce, &signature));

    // Provisioned identity with a wrong signature.
    let stale = vec![9u8; 32];
    let bad = sign_nonce(&private, &stale);
    assert!(!verify(&ks, &b"device123".to_vec(), &nonce, &bad));

    // A signature text that is not base64 at all.
    assert!(!verify(
        &ks,
        &b"device123".to_vec(),
        &nonce,
        &b"!!not base64!!".to_vec()
    ));

    // From outside, both failed handshakes look the same.
    let mut reg = registry_new();
    let mut c1 = Conn::new();
    let _ = c1.begin_handshake(nonce.clone());
    let r1 = c1.on_challenge_reply(
        Some(Incoming::Auth {
            client_id: b"ghost".to_vec(),
            signature: sign_nonce(&private, &nonce),
        }),
        &ks,
        &mut reg,
    );
    let mut c2 = Conn::new();
    let _ = c2.begin_handshake(nonce.clone());
    let r2 = c2.on_challenge_reply(
        Some(Incoming::Auth {
            client_id: b"device123".to_vec(),
            signature: sign_nonce(&private, &stale),
        }),
        &ks,
        &mut reg,
    );
    assert!(matches!(r1, HandshakeReply::CloseSignal));
    assert!(matches!(r2, HandshakeReply::CloseSignal));
    assert!(matches!(c1.phase(), Phase::AuthFailed));
    assert!(matches!(c2.phase(), Phase::AuthFailed));
    assert_eq!(registry_len(&reg), 0);
}

#[test]
fn n_authentications_then_one_close() {
    let mut ks = KeyStore::new();
    let mut keys = Vec::new();
    let ids: Vec<Vec<u8>> = vec![b"a".to_vec(), b"b".to_vec(), b"c".to_vec()];
    for id in &ids {
        let (private, der) = test_key();
        ks.add(id.clone(), der);
        keys.push(private);
    }
    let mut reg = registry_new();
    let mut conns = Vec::new();
    for (i, id) in ids.iter().enumerate() {
        let (conn, events) = authenticate(&ks, &mut reg, &keys[i], id);
        conns.push((conn, events));
    }
    assert_eq!(registry_len(&reg), 3);

    let (mut closing, _events) = conns.remove(1);
    closing.close(&mut reg);
    assert_eq!(registry_len(&reg), 2);

    // The other entries are untouched: a publish still reaches exactly them.
    let (publisher, _) = &conns[0];
    let recipients = publisher
        .on_client_message(
            Some(Incoming::Event {
                data: b"x".to_vec(),
            }),
            &reg,
        )
        .expect("published");
    let mut got = recipients.clone();
    got.sort();
    assert_eq!(got, vec![b"a".to_vec(), b"c".to_vec()]);
}

#[test]
fn publish_reaches_all_including_source_despite_closed_path() {
    let mut ks = KeyStore::new();
    let mut keys = Vec::new();
    let ids: Vec<Vec<u8>> = vec![b"a".to_vec(), b"b".to_vec(), b"c".to_vec()];
    for id in &ids {
        let (private, der) = test_key();
        ks.add(id.clone(), der);
        keys.push(private);
    }
    let mut reg = registry_new();
    let (conn_a, mut rx_a) = authenticate(&ks, &mut reg, &keys[0], b"a");
    let (_conn_b, rx_b) = authenticate(&ks, &mut reg, &keys[1], b"b");
    let (_conn_c, mut rx_c) = authenticate(&ks, &mut reg, &keys[2], b"c");

    let recipients = conn_a
        .on_client_message(
            Some(Incoming::Event {
                data: b"hi".to_vec(),
            }),
            &reg,
        )
        .expect("published");
    assert_eq!(recipients.len(), 3);
    assert!(recipients.contains(&b"a".to_vec()));

    // One delivery path is closed; the others still receive.
    drop(rx_b);
    let again = conn_a
        .on_client_message(
            Some(Incoming::Event {
                data: b"again".to_vec(),
            }),
            &reg,
        )
        .expect("published");
    assert_eq!(again.len(), 3);

    assert_eq!(rx_a.try_recv().unwrap(), (b"a".to_vec(), b"hi".to_vec()));
    assert_eq!(rx_a.try_recv().unwrap(), (b"a".to_vec(), b"again".to_vec()));
    assert_eq!(rx_c.try_recv().unwrap(), (b"a".to_vec(), b"hi".to_vec()));
    assert_eq!(rx_c.try_recv().unwrap(), (b"a".to_vec(), b"again".to_vec()));

    // Saturating one subscriber's queue does not stop the fan-out: every
    // publish still reaches all registered identities, and the lagging
    // subscriber loses only its oldest events.
    for i in 0..150u8 {
        let recipients = conn_a
            .on_client_message(
                Some(Incoming::Event {
                    data: vec![b'm', i],
                }),
                &reg,
            )
            .expect("published");
        assert_eq!(recipients.len(), 3);
    }
    assert!(matches!(
        rx_c.try_recv(),
        Err(tokio::sync::broadcast::error::TryRecvError::Lagged(_))
    ));
    let (from, _data) = rx_c.try_recv().expect("later events still arrive");
    assert_eq!(from, b"a".to_vec());
}

#[test]
fn close_twice_is_a_no_op() {
    let (private, der) = test_key();
    let mut ks = KeyStore::new();
    ks.add(b"device123".to_vec(), der);
    let mut reg = registry_new();
    let (mut conn, _events) = authenticate(&ks, &mut reg, &private, b"device123");
    assert_eq!(registry_len(&reg), 1);
    conn.close(&mut reg);
    assert_eq!(registry_len(&reg), 0);
    assert!(matches!(conn.phase(), Phase::Closed));
    conn.close(&mut reg);
    assert_eq!(registry_len(&reg), 0);
    assert!(matches!(conn.phase(), Phase::Closed));

    // Closing a connection that never registered is a no-op on the registry.
    let mut fresh = Conn::new();
    fresh.close(&mut reg);
    fresh.close(&mut reg);
    assert_eq!(registry_len(&reg), 0);
}

#[test]
fn non_auth_first_message_drops_connection() {
    let mut ks = KeyStore::new();
    let mut reg = registry_new();
    let mut conn = Conn::new();
    let _ = conn.begin_handshake(generate());
    let reply = conn.on_challenge_reply(
        Some(Incoming::Event {
            data: b"early".to_vec(),
        }),
        &ks,
        &mut reg,
    );
    assert!(matches!(reply, HandshakeReply::Dropped));
    assert!(matches!(conn.phase(), Phase::Closed));
    assert_eq!(registry_len(&reg), 0);

    let mut conn2 = Conn::new();
    let _ = conn2.begin_handshake(generate());
    let reply2 = conn2.on_challenge_reply(None, &mut ks, &mut reg);
    assert!(matches!(reply2, HandshakeReply::Dropped));
    assert!(matches!(conn2.phase(), Phase::Closed));
}

#[test]
fn ignored_messages_keep_connection_open() {
    let (private, der) = test_key();
    let mut ks = KeyStore::new();
    ks.add(b"device123".to_vec(), der);
    let mut reg = registry_new();
    let (conn, mut events) = authenticate(&ks, &mut reg, &private, b"device123");

    // A malformed frame and a second auth message are both ignored.
    assert!(conn.on_client_message(None, &reg).is_none());
    assert!(conn
        .on_client_message(
            Some(Incoming::Auth {
                client_id: b"device123".to_vec(),
                signature: b"xx".to_vec(),
            }),
            &reg,
        )
        .is_none());
    assert!(matches!(conn.phase(), Phase::Authenticated));
    assert_eq!(registry_len(&reg), 1);
    assert!(events.try_recv().is_err());
}
