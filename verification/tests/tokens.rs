use tower_surf::assemble_token;
use tower_surf::decimal_of_i128;
use tower_surf::sign_and_encode;
use tower_surf::validate_token;

#[test]
fn create_token() {
    let token = assemble_token(b"super-secret", b"identifier", &[42u8; 64]);
    let token_str = String::from_utf8(token).unwrap();

    let parts = token_str.splitn(2, '.').collect::<Vec<&str>>();
    assert_eq!(parts.len(), 2);

    let salt = base64::Engine::encode(&base64::prelude::BASE64_STANDARD, [42u8; 64]);
    let message = format!("{}!{}", "identifier", salt);
    assert_eq!(parts[1], message);

    let signature = sign_and_encode(b"super-secret", message.as_bytes());
    assert_eq!(parts[0], String::from_utf8(signature).unwrap());
}

#[test]
fn message_salt_matches_known_vector() {
    let token = assemble_token(b"super-secret", b"identifier", &[42u8; 64]);
    let token_str = String::from_utf8(token).unwrap();
    let message = token_str.splitn(2, '.').nth(1).unwrap();
    assert_eq!(
        message,
        "identifier!KioqKioqKioqKioqKioqKioqKioqKioqKioqKioqKioqKioqKioqKioqKioqKioqKioqKioqKioqKioqKioqKg=="
    );
}

#[test]
fn sign_matches_known_vector() {
    // HMAC-SHA256 test vector: key "Jefe", data "what do ya want for
    // nothing?", digest 5bdcc146bf60754e6a042426089575c75a003f089d2739839dec58b964ec3843.
    let signature = sign_and_encode(b"Jefe", b"what do ya want for nothing?");
    assert_eq!(
        String::from_utf8(signature).unwrap(),
        "W9zBRr9gdU5qBCQmCJV1x1oAPwidJzmDnexYuWTsOEM="
    );
}

#[test]
fn round_trip_validates() {
    let token = tower_surf::create_token(b"secret-key", b"identifier");
    assert!(validate_token(b"secret-key", &token, &token));
}

#[test]
fn round_trip_validates_with_empty_identifier() {
    let token = tower_surf::create_token(b"secret-key", b"");
    assert!(validate_token(b"secret-key", &token, &token));
}

#[test]
fn round_trip_validates_with_dots_in_identifier() {
    // The identifier may carry `.` freely: only the first dot, which ends
    // the base64 signature, decides the split.
    let token = tower_surf::create_token(b"secret-key", b"we.ird.id");
    assert!(validate_token(b"secret-key", &token, &token));
}

#[test]
fn tamper_in_signature_rejected() {
    let mut token = assemble_token(b"secret-key", b"alice", &[7u8; 64]);
    assert!(validate_token(b"secret-key", &token, &token));
    token[0] = if token[0] == b'A' { b'B' } else { b'A' };
    assert!(!validate_token(b"secret-key", &token, &token));
}

#[test]
fn every_signature_byte_is_load_bearing() {
    let token = assemble_token(b"secret-key", b"alice", &[7u8; 64]);
    let dot = token.iter().position(|&b| b == b'.').unwrap();
    for i in 0..dot {
        let mut tampered = token.clone();
        tampered[i] = if tampered[i] == b'A' { b'B' } else { b'A' };
        assert!(!validate_token(b"secret-key", &tampered, &tampered));
    }
}

#[test]
fn cross_session_rejected() {
    let token_a = assemble_token(b"secret-key", b"alice", &[1u8; 64]);
    let token_b = assemble_token(b"secret-key", b"alice", &[2u8; 64]);
    assert_ne!(token_a, token_b);
    // Each is sound on its own ...
    assert!(validate_token(b"secret-key", &token_a, &token_a));
    assert!(validate_token(b"secret-key", &token_b, &token_b));
    // ... but echoing one against the other's cookie fails.
    assert!(!validate_token(b"secret-key", &token_a, &token_b));
    assert!(!validate_token(b"secret-key", &token_b, &token_a));
}

#[test]
fn wrong_secret_rejected() {
    let token = assemble_token(b"secret-a", b"alice", &[3u8; 64]);
    assert!(validate_token(b"secret-a", &token, &token));
    assert!(!validate_token(b"secret-b", &token, &token));
}

#[test]
fn malformed_tokens_rejected() {
    assert!(!validate_token(b"secret-key", b"garbage", b"garbage"));
    assert!(!validate_token(b"secret-key", b"", b""));
    assert!(!validate_token(b"secret-key", b".", b"."));
    assert!(!validate_token(b"secret-key", b"a.b", b"a.b"));
}

#[test]
fn decimal_renders_exactly() {
    assert_eq!(decimal_of_i128(0), b"0".to_vec());
    assert_eq!(decimal_of_i128(-12345), b"-12345".to_vec());
    assert_eq!(decimal_of_i128(987654321), b"987654321".to_vec());
    assert_eq!(
        decimal_of_i128(i128::MIN),
        b"-170141183460469231731687303715884105728".to_vec()
    );
    assert_eq!(
        decimal_of_i128(i128::MAX),
        b"170141183460469231731687303715884105727".to_vec()
    );
}

#[test]
fn fresh_tokens_are_unlinkable() {
    let token_a = tower_surf::create_token(b"secret-key", b"alice");
    let token_b = tower_surf::create_token(b"secret-key", b"alice");
    assert_ne!(token_a, token_b);
}
