use std::collections::HashSet;

use chacha20poly1305::aead::{Aead, KeyInit, Payload};
use chacha20poly1305::{ChaCha20Poly1305, Key, Nonce};
use notify_gate::auth::{authenticate_with, keys_match, require_key, AuthDecision, AuthReason, Credential, LookupResult};
use notify_gate::cipher::{id_to_bytes, nonce_for, EncryptedEnvelope, Event, PayloadCipher};
use notify_gate::error::DispatchError;
use notify_gate::pipeline::{
    event_from_incoming, event_from_incoming_with, fresh_event_id, reason_to_error, status_for_error, Dispatch, IncomingEvent, Stage,
};

fn test_key() -> Vec<u8> {
    (0u8..32).collect()
}

fn test_cipher() -> PayloadCipher {
    PayloadCipher::with_prefix(test_key(), vec![1, 2, 3, 4, 5, 6, 7, 8]).unwrap()
}

fn active(key: &str) -> LookupResult {
    LookupResult::Found(Credential { key: key.as_bytes().to_vec(), active: true })
}

fn is_random_uuid(id: u128) -> bool {
    uuid::Uuid::from_u128(id).get_version_num() == 4 && uuid::Uuid::from_u128(id).get_variant() == uuid::Variant::RFC4122
}

/// Runs a request through the dispatch stages with simulated store, body
/// decoding and sink; returns the status and the envelopes the sink saw.
fn run(
    api_key: Option<&str>,
    lookup: LookupResult,
    body: &str,
    sink_accepts: bool,
) -> (u16, Vec<EncryptedEnvelope>, usize) {
    let mut cipher = test_cipher();
    let mut d = Dispatch::new();
    let mut queries = 0usize;
    let mut seen = Vec::new();
    if let Some(key) = d.receive(api_key.map(|k| k.as_bytes().to_vec())) {
        queries += 1;
        d.authenticated(&key, &lookup);
        if d.stage() == Stage::Decoding {
            let parsed: Option<IncomingEvent> = serde_json::from_str::<serde_json::Value>(body)
                .ok()
                .and_then(|v| v.get("data").and_then(|x| x.as_str()).map(|s| s.as_bytes().to_vec()))
                .map(|data| IncomingEvent { id: None, data });
            if let Some(event) = d.decoded(parsed) {
                if let Some(env) = d.encrypt(&mut cipher, &event) {
                    seen.push(env);
                    d.delivered(sink_accepts);
                }
            }
        }
    }
    (d.status().unwrap(), seen, queries)
}

#[test]
fn keys_match_compares_whole_keys() {
    assert!(keys_match(b"K1", b"K1"));
    assert!(!keys_match(b"K1", b"K2"));
    assert!(!keys_match(b"K1", b"K10"));
    assert!(!keys_match(b"", b"K"));
    assert!(keys_match(b"", b""));
    assert!(!keys_match(b"xbcdef", b"abcdef"));
}

#[test]
fn authenticate_active_key_admitted() {
    let d = authenticate_with(b"K1", &active("K1"));
    assert_eq!(d, AuthDecision { admitted: true, reason: None });
}

#[test]
fn authenticate_inactive_key_rejected() {
    let lookup = LookupResult::Found(Credential { key: b"K1".to_vec(), active: false });
    let d = authenticate_with(b"K1", &lookup);
    assert_eq!(d, AuthDecision { admitted: false, reason: Some(AuthReason::Inactive) });
}

#[test]
fn authenticate_unknown_and_mismatched_keys_rejected() {
    let d = authenticate_with(b"K1", &LookupResult::NotFound);
    assert_eq!(d.reason, Some(AuthReason::UnknownKey));
    assert!(!d.admitted);
    let d = authenticate_with(b"K1", &active("K2"));
    assert_eq!(d, AuthDecision { admitted: false, reason: Some(AuthReason::UnknownKey) });
}

#[test]
fn authenticate_store_error_fails_closed() {
    let d = authenticate_with(b"K1", &LookupResult::StoreError);
    assert_eq!(d, AuthDecision { admitted: false, reason: Some(AuthReason::StoreError) });
}

#[test]
fn missing_key_is_unauthorized_without_store_query() {
    let (status, seen, queries) = run(None, active("K1"), "{\"data\":\"hello\"}", true);
    assert_eq!(status, 401);
    assert_eq!(queries, 0);
    assert!(seen.is_empty());
    let mut d = Dispatch::new();
    assert!(d.receive(None).is_none());
    assert_eq!(d.stage(), Stage::Rejected(DispatchError::MissingKey));
}

#[test]
fn scenario_active_key_delivers_fresh_id() {
    let (status, seen, queries) = run(Some("K1"), active("K1"), "{\"data\":\"hello\"}", true);
    assert_eq!(status, 200);
    assert_eq!(queries, 1);
    assert_eq!(seen.len(), 1);
    assert!(is_random_uuid(seen[0].id));
    let opened = test_cipher().decrypt(&seen[0]).unwrap();
    assert_eq!(opened.data, b"hello".to_vec());
    assert_eq!(opened.id, seen[0].id);
}

#[test]
fn scenario_absent_key_unauthorized_no_envelope() {
    let (status, seen, _) = run(Some("K1"), LookupResult::NotFound, "{\"data\":\"hello\"}", true);
    assert_eq!(status, 401);
    assert!(seen.is_empty());
}

#[test]
fn scenario_store_timeout_unauthorized() {
    let (status, seen, _) = run(Some("K1"), LookupResult::StoreError, "{\"data\":\"hello\"}", true);
    assert_eq!(status, 401);
    assert!(seen.is_empty());
}

#[test]
fn scenario_inactive_key_unauthorized() {
    let lookup = LookupResult::Found(Credential { key: b"K1".to_vec(), active: false });
    let (status, seen, _) = run(Some("K1"), lookup, "{\"data\":\"hello\"}", true);
    assert_eq!(status, 401);
    assert!(seen.is_empty());
}

#[test]
fn scenario_malformed_body_bad_request() {
    let (status, seen, _) = run(Some("K1"), active("K1"), "{not-json", true);
    assert_eq!(status, 400);
    assert!(seen.is_empty());
}

#[test]
fn scenario_sink_failure_server_error() {
    let (status, seen, _) = run(Some("K1"), active("K1"), "{\"data\":\"hello\"}", false);
    assert_eq!(status, 500);
    assert_eq!(seen.len(), 1);
}

#[test]
fn sink_failure_is_not_completed() {
    let mut cipher = test_cipher();
    let mut d = Dispatch::new();
    let key = d.receive(Some(b"K1".to_vec())).unwrap();
    assert_eq!(d.stage(), Stage::Authenticating);
    assert!(d.authenticated(&key, &active("K1")).admitted);
    let event = d.decoded(Some(IncomingEvent { id: Some(7), data: b"x".to_vec() })).unwrap();
    assert_eq!(event.id, 7);
    assert_eq!(d.stage(), Stage::Encrypting);
    let env = d.encrypt(&mut cipher, &event).unwrap();
    assert_eq!(env.id, 7);
    assert_eq!(d.stage(), Stage::Delivering);
    assert_eq!(d.status(), None);
    d.delivered(false);
    assert_eq!(d.stage(), Stage::Rejected(DispatchError::DeliveryFailure));
    assert_ne!(d.stage(), Stage::Completed);
}

#[test]
fn rejection_stage_carries_reason() {
    let mut d = Dispatch::new();
    let key = d.receive(Some(b"K9".to_vec())).unwrap();
    d.authenticated(&key, &LookupResult::NotFound);
    assert_eq!(d.stage(), Stage::Rejected(DispatchError::UnknownKey));
    let mut d = Dispatch::new();
    let key = d.receive(Some(b"K1".to_vec())).unwrap();
    d.authenticated(&key, &active("K1"));
    assert!(d.decoded(None).is_none());
    assert_eq!(d.stage(), Stage::Rejected(DispatchError::MalformedEvent));
}

#[test]
fn statuses_for_each_error() {
    assert_eq!(status_for_error(DispatchError::MissingKey), 401);
    assert_eq!(status_for_error(DispatchError::UnknownKey), 401);
    assert_eq!(status_for_error(DispatchError::InactiveKey), 401);
    assert_eq!(status_for_error(DispatchError::StoreError), 401);
    assert_eq!(status_for_error(DispatchError::MalformedEvent), 400);
    assert_eq!(status_for_error(DispatchError::EncryptionFailure), 500);
    assert_eq!(status_for_error(DispatchError::TamperedPayload), 500);
    assert_eq!(status_for_error(DispatchError::DeliveryFailure), 500);
    assert_eq!(reason_to_error(AuthReason::Inactive), DispatchError::InactiveKey);
    assert_eq!(reason_to_error(AuthReason::MissingKey), DispatchError::MissingKey);
}

#[test]
fn incoming_event_id_kept_or_generated() {
    let e = event_from_incoming_with(IncomingEvent { id: None, data: vec![1, 2] }, 99);
    assert_eq!(e.id, 99);
    assert_eq!(e.data, vec![1, 2]);
    let e = event_from_incoming_with(IncomingEvent { id: Some(5), data: vec![] }, 99);
    assert_eq!(e.id, 5);
    let a = event_from_incoming(IncomingEvent { id: None, data: vec![3] }).unwrap();
    let b = event_from_incoming(IncomingEvent { id: None, data: vec![3] }).unwrap();
    assert_eq!(a.data, vec![3]);
    let c = event_from_incoming(IncomingEvent { id: Some(11), data: vec![4] }).unwrap();
    assert_eq!(c.id, 11);
    assert_eq!(c.data, vec![4]);
    assert!(is_random_uuid(a.id));
    assert!(is_random_uuid(b.id));
    assert_ne!(a.id, b.id);
}

#[test]
fn id_and_nonce_bytes_are_big_endian() {
    assert_eq!(id_to_bytes(0x0102030405060708090a0b0c0d0e0f10), (1u8..=16).collect::<Vec<u8>>());
    assert_eq!(nonce_for(&[9, 8, 7, 6, 5, 4, 3, 2], 0x0a0b0c0d), vec![9, 8, 7, 6, 5, 4, 3, 2, 10, 11, 12, 13]);
    assert_eq!(nonce_for(&[0; 8], 0), vec![0u8; 12]);
    assert_eq!(nonce_for(&[0; 8], u32::MAX), vec![0, 0, 0, 0, 0, 0, 0, 0, 255, 255, 255, 255]);
}

#[test]
fn cipher_rejects_wrong_key_length() {
    assert!(PayloadCipher::with_prefix(vec![0u8; 31], vec![0; 8]).is_none());
    assert!(PayloadCipher::with_prefix(vec![0u8; 33], vec![0; 8]).is_none());
    assert!(PayloadCipher::with_prefix(vec![0u8; 32], vec![0; 4]).is_none());
    assert!(PayloadCipher::with_prefix(vec![0u8; 32], vec![0; 8]).is_some());
    assert!(PayloadCipher::new(vec![0u8; 16]).is_none());
    assert!(PayloadCipher::new(vec![0u8; 32]).is_some());
}

#[test]
fn encrypt_matches_chacha20poly1305() {
    let mut cipher = test_cipher();
    let event = Event { id: 0x1234, data: b"hello".to_vec() };
    let env = cipher.encrypt(&event).unwrap();
    assert_eq!(env.nonce, vec![1, 2, 3, 4, 5, 6, 7, 8, 0, 0, 0, 0]);
    assert_eq!(env.ciphertext.len(), 5);
    assert_eq!(env.auth_tag.len(), 16);
    assert_ne!(env.ciphertext, b"hello".to_vec());
    let key = test_key();
    let expected = ChaCha20Poly1305::new(Key::from_slice(&key))
        .encrypt(Nonce::from_slice(&env.nonce), Payload { msg: b"hello", aad: &id_to_bytes(0x1234) })
        .unwrap();
    let mut got = env.ciphertext.clone();
    got.extend_from_slice(&env.auth_tag);
    assert_eq!(got, expected);
    assert_eq!(cipher.sealed_count(), 1);
}

#[test]
fn round_trip_restores_event() {
    let mut cipher = test_cipher();
    for data in [vec![], b"hello".to_vec(), (0u8..=255).collect::<Vec<u8>>()] {
        let event = Event { id: 42, data: data.clone() };
        let env = cipher.encrypt(&event).unwrap();
        let back = cipher.decrypt(&env).unwrap();
        assert_eq!(back.id, 42);
        assert_eq!(back.data, data);
    }
}

#[test]
fn tampered_bits_are_detected() {
    let mut cipher = test_cipher();
    let env = cipher.encrypt(&Event { id: 3, data: b"secret".to_vec() }).unwrap();
    for i in 0..env.ciphertext.len() {
        for bit in 0..8 {
            let mut t = EncryptedEnvelope {
                id: env.id,
                ciphertext: env.ciphertext.clone(),
                nonce: env.nonce.clone(),
                auth_tag: env.auth_tag.clone(),
            };
            t.ciphertext[i] ^= 1 << bit;
            assert!(matches!(cipher.decrypt(&t), Err(DispatchError::TamperedPayload)));
        }
    }
    for i in 0..env.auth_tag.len() {
        for bit in 0..8 {
            let mut t = EncryptedEnvelope {
                id: env.id,
                ciphertext: env.ciphertext.clone(),
                nonce: env.nonce.clone(),
                auth_tag: env.auth_tag.clone(),
            };
            t.auth_tag[i] ^= 1 << bit;
            assert!(matches!(cipher.decrypt(&t), Err(DispatchError::TamperedPayload)));
        }
    }
}

#[test]
fn altered_id_or_nonce_is_detected() {
    let mut cipher = test_cipher();
    let env = cipher.encrypt(&Event { id: 3, data: b"secret".to_vec() }).unwrap();
    let moved = EncryptedEnvelope { id: 4, ciphertext: env.ciphertext.clone(), nonce: env.nonce.clone(), auth_tag: env.auth_tag.clone() };
    assert!(matches!(cipher.decrypt(&moved), Err(DispatchError::TamperedPayload)));
    let short = EncryptedEnvelope { id: 3, ciphertext: env.ciphertext.clone(), nonce: vec![1, 2, 3], auth_tag: env.auth_tag.clone() };
    assert!(matches!(cipher.decrypt(&short), Err(DispatchError::TamperedPayload)));
    let truncated = EncryptedEnvelope { id: 3, ciphertext: vec![], nonce: env.nonce.clone(), auth_tag: vec![] };
    assert!(matches!(cipher.decrypt(&truncated), Err(DispatchError::TamperedPayload)));
    let other = PayloadCipher::with_prefix(vec![9u8; 32], vec![1, 2, 3, 4, 5, 6, 7, 8]).unwrap();
    assert!(matches!(other.decrypt(&env), Err(DispatchError::TamperedPayload)));
}

#[test]
fn nonces_never_repeat_over_many_calls() {
    let mut cipher = PayloadCipher::new(test_key()).unwrap();
    let event = Event { id: 1, data: b"n".to_vec() };
    let mut seen = HashSet::new();
    for _ in 0..10_000 {
        let env = cipher.encrypt(&event).unwrap();
        assert!(seen.insert(env.nonce));
    }
    assert_eq!(cipher.sealed_count(), 10_000);
}

#[test]
fn require_key_rejects_absent_key() {
    assert_eq!(require_key(None), Err(AuthDecision { admitted: false, reason: Some(AuthReason::MissingKey) }));
    assert_eq!(require_key(Some(b"K1".to_vec())), Ok(b"K1".to_vec()));
}

#[test]
fn fresh_ids_are_random_uuids() {
    let a = fresh_event_id().unwrap();
    let b = fresh_event_id().unwrap();
    assert!(is_random_uuid(a));
    assert!(is_random_uuid(b));
    assert_ne!(a, b);
}

#[test]
fn ciphers_from_fresh_prefixes_differ() {
    let event = Event { id: 1, data: b"n".to_vec() };
    let a = PayloadCipher::new(test_key()).unwrap().encrypt(&event).unwrap();
    let b = PayloadCipher::new(test_key()).unwrap().encrypt(&event).unwrap();
    assert_eq!(a.nonce.len(), 12);
    assert_eq!(&a.nonce[8..], &[0, 0, 0, 0]);
    assert_ne!(a.nonce, b.nonce);
}
