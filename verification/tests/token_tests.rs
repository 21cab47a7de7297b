use authgate::token::{
    decode_token_at, generate_token, issue_token_at, verify_token, TokenError, LEEWAY_SECS,
};

const SECRET: &str = "test-signing-secret";

#[test]
fn issued_token_decodes_to_same_claims_before_expiry() {
    let token = issue_token_at(42, "a@x.com", 1000, SECRET);
    let claims = decode_token_at(&token, SECRET, 900).unwrap();
    assert_eq!(claims.sub, 42);
    assert_eq!(claims.email, "a@x.com");
    assert_eq!(claims.exp, 1000);
}

#[test]
fn issue_is_deterministic_in_its_arguments() {
    let t1 = issue_token_at(42, "a@x.com", 1000, SECRET);
    let t2 = issue_token_at(42, "a@x.com", 1000, SECRET);
    assert_eq!(t1, t2);
    let other = issue_token_at(42, "a@x.com", 1001, SECRET);
    assert_ne!(t1, other);
}

#[test]
fn expiry_boundary_honors_leeway() {
    let token = issue_token_at(1, "a@x.com", 1000, SECRET);
    assert!(decode_token_at(&token, SECRET, 1000 + LEEWAY_SECS as i64).is_ok());
    let r = decode_token_at(&token, SECRET, 1000 + LEEWAY_SECS as i64 + 1);
    assert_eq!(r.unwrap_err(), TokenError::Expired);
}

#[test]
fn expired_token_fails_with_expired_despite_valid_signature() {
    let token = issue_token_at(42, "a@x.com", 1000, SECRET);
    let r = decode_token_at(&token, SECRET, 1_000_000);
    assert_eq!(r.unwrap_err(), TokenError::Expired);
}

#[test]
fn tampered_payload_fails_with_invalid_signature() {
    let token = issue_token_at(42, "a@x.com", 1000, SECRET);
    // Flip one character in the middle of the claims section.
    let dot = token.find('.').unwrap();
    let i = dot + 3;
    let mut bytes = token.clone().into_bytes();
    bytes[i] = if bytes[i] == b'A' { b'B' } else { b'A' };
    let tampered = String::from_utf8(bytes).unwrap();
    let r = decode_token_at(&tampered, SECRET, 900);
    assert_eq!(r.unwrap_err(), TokenError::InvalidSignature);
}

#[test]
fn flipped_signature_character_fails_with_invalid_signature() {
    let token = issue_token_at(42, "a@x.com", 1000, SECRET);
    let mut bytes = token.clone().into_bytes();
    let last = bytes.len() - 1;
    bytes[last] = if bytes[last] == b'A' { b'B' } else { b'A' };
    let tampered = String::from_utf8(bytes).unwrap();
    let r = decode_token_at(&tampered, SECRET, 900);
    assert_eq!(r.unwrap_err(), TokenError::InvalidSignature);
}

#[test]
fn wrong_secret_fails_with_invalid_signature() {
    let token = issue_token_at(42, "a@x.com", 1000, SECRET);
    let r = decode_token_at(&token, "another-secret", 900);
    assert_eq!(r.unwrap_err(), TokenError::InvalidSignature);
}

#[test]
fn garbage_token_is_malformed() {
    let r = decode_token_at("not.a.token", SECRET, 900);
    assert_eq!(r.unwrap_err(), TokenError::Malformed);
    let r = decode_token_at("", SECRET, 900);
    assert_eq!(r.unwrap_err(), TokenError::Malformed);
}

#[test]
fn generate_and_verify_round_trip_on_the_real_clock() {
    let token = generate_token(7, "b@y.org", SECRET).unwrap();
    assert_eq!(verify_token(&token, SECRET).unwrap(), 7);
}

#[test]
fn verify_token_rejects_wrong_secret() {
    let token = generate_token(7, "b@y.org", SECRET).unwrap();
    assert!(verify_token(&token, "another-secret").is_err());
}
