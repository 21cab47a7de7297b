use authgate::date::Date;
use authgate::errors::{externalize, AuthError, ExternalOutcome};
use authgate::gate::{extract_bearer, resolve_identity, validate_bearer, LookupResult};
use authgate::hasher::hash_password;
use authgate::login::{login, LoginPayload};
use authgate::model::User;
use authgate::token::{TokenError, LEEWAY_SECS, TOKEN_TTL_SECS};

const SECRET: &str = "test-signing-secret";
const NOW: i64 = 1_700_000_000;

fn stored_user() -> User {
    User {
        id: Some(7),
        full_name: "Ada Lovelace".to_owned(),
        birth_date: Date { year: 1815, month: 12, day: 10 },
        email: "a@x.com".to_owned(),
        hashed_password: hash_password("correct").unwrap(),
        lang: "en".to_owned(),
    }
}

fn login_token() -> String {
    let payload = LoginPayload { email: "a@x.com".to_owned(), password: "correct".to_owned() };
    login(&payload, LookupResult::Found(stored_user()), SECRET, NOW).unwrap().access_token
}

#[test]
fn end_to_end_login_then_admitted_request() {
    let token = login_token();
    let header = format!("Bearer {}", token);
    let claims = validate_bearer(Some(&header), SECRET, NOW + 10).unwrap();
    assert_eq!(claims.sub, 7);
    assert_eq!(claims.email, "a@x.com");
    let identity = resolve_identity(&claims, LookupResult::Found(stored_user())).unwrap();
    assert_eq!(identity.id, Some(7));
    assert_eq!(identity.email, "a@x.com");
}

#[test]
fn flipped_token_character_is_rejected_as_unauthorized() {
    let token = login_token();
    let mut bytes = token.into_bytes();
    let last = bytes.len() - 1;
    bytes[last] = if bytes[last] == b'A' { b'B' } else { b'A' };
    let header = format!("Bearer {}", String::from_utf8(bytes).unwrap());
    let e = validate_bearer(Some(&header), SECRET, NOW + 10).unwrap_err();
    assert_eq!(e, AuthError::InvalidToken(TokenError::InvalidSignature));
    assert_eq!(externalize(&e), ExternalOutcome::Unauthorized);
    assert_eq!(externalize(&e).status_code(), 401);
}

#[test]
fn request_after_expiry_window_is_rejected_as_unauthorized() {
    let token = login_token();
    let header = format!("Bearer {}", token);
    let later = NOW + TOKEN_TTL_SECS as i64 + LEEWAY_SECS as i64 + 1;
    let e = validate_bearer(Some(&header), SECRET, later).unwrap_err();
    assert_eq!(e, AuthError::InvalidToken(TokenError::Expired));
    assert_eq!(externalize(&e), ExternalOutcome::Unauthorized);
}

#[test]
fn missing_and_malformed_credentials_are_distinct_internally() {
    let missing = validate_bearer(None, SECRET, NOW).unwrap_err();
    assert_eq!(missing, AuthError::MissingCredential);
    let malformed = validate_bearer(Some("Token abc"), SECRET, NOW).unwrap_err();
    assert_eq!(malformed, AuthError::MalformedCredential);
    let short = validate_bearer(Some("Bearer"), SECRET, NOW).unwrap_err();
    assert_eq!(short, AuthError::MalformedCredential);
    assert_eq!(externalize(&missing), ExternalOutcome::Unauthorized);
    assert_eq!(externalize(&malformed), ExternalOutcome::Unauthorized);
}

#[test]
fn extract_bearer_strips_exactly_the_scheme_prefix() {
    assert_eq!(extract_bearer(Some("Bearer abc.def.ghi")).unwrap(), "abc.def.ghi");
    assert_eq!(extract_bearer(Some("Bearer ")).unwrap(), "");
    assert_eq!(extract_bearer(Some("bearer abc")).unwrap_err(), AuthError::MalformedCredential);
    assert_eq!(extract_bearer(None).unwrap_err(), AuthError::MissingCredential);
}

#[test]
fn empty_bearer_token_is_rejected_by_the_codec() {
    let e = validate_bearer(Some("Bearer "), SECRET, NOW).unwrap_err();
    assert_eq!(e, AuthError::InvalidToken(TokenError::Malformed));
}

#[test]
fn deleted_account_and_storage_failure_reject_a_valid_token() {
    let token = login_token();
    let header = format!("Bearer {}", token);
    let claims = validate_bearer(Some(&header), SECRET, NOW + 10).unwrap();
    let gone = resolve_identity(&claims, LookupResult::Missing).unwrap_err();
    assert_eq!(gone, AuthError::IdentityNotFound);
    let down = resolve_identity(&claims, LookupResult::Failed).unwrap_err();
    assert_eq!(down, AuthError::StorageFailure);
    assert_eq!(externalize(&gone), ExternalOutcome::Unauthorized);
    assert_eq!(externalize(&down), ExternalOutcome::Unauthorized);
}

#[test]
fn record_with_different_identifier_is_not_admitted() {
    let token = login_token();
    let header = format!("Bearer {}", token);
    let claims = validate_bearer(Some(&header), SECRET, NOW + 10).unwrap();
    let mut other = stored_user();
    other.id = Some(8);
    let e = resolve_identity(&claims, LookupResult::Found(other)).unwrap_err();
    assert_eq!(e, AuthError::IdentityNotFound);
    let mut anonymous = stored_user();
    anonymous.id = None;
    let e = resolve_identity(&claims, LookupResult::Found(anonymous)).unwrap_err();
    assert_eq!(e, AuthError::IdentityNotFound);
}
