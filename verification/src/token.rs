//! Signed, self-contained session tokens.
//!
//! A token carries exactly three claims—`sub` (the account identifier),
//! `email`, and `exp` (a unix timestamp)—and is signed with a symmetric MAC
//! keyed by the process-wide secret. Signing and MAC verification are done by
//! the `jsonwebtoken` crate behind two trusted wrappers; everything decided on
//! top of them (expiry with clock-skew tolerance, narrowing of the subject,
//! the shape of every error) is verified here.
//!
//! What a well-signed token decodes to is a function of the token text and
//! the secret alone; that function is named [`jwt_claims`], and every
//! contract in this module is stated over it.

use vstd::prelude::*;

use jsonwebtoken::errors::ErrorKind;
use jsonwebtoken::{decode, encode, Algorithm, DecodingKey, EncodingKey, Header, Validation};

verus! {

/// Tolerated clock skew, in seconds, when judging expiry: a token is only
/// rejected once it is more than this many seconds past its `exp` claim.
pub const LEEWAY_SECS: u64 = 60;

/// Lifetime of a freshly issued token, in seconds: seven days.
pub const TOKEN_TTL_SECS: u64 = 7 * 24 * 60 * 60;

/// The claims carried by a session token.
#[derive(Debug, Clone)]
pub struct Claims {
    /// The identifier of the account the token was issued to.
    pub sub: i32,
    /// The email the account had when the token was issued.
    pub email: String,
    /// Expiry as a unix timestamp in seconds.
    pub exp: u64,
}

/// How decoding a token can fail.
#[derive(Debug, Clone, Copy, PartialEq, Eq, Structural)]
pub enum TokenError {
    /// The MAC does not match the token contents under the given secret.
    InvalidSignature,
    /// The token is not a well-formed signed claims structure.
    Malformed,
    /// The token is past its expiry beyond the skew tolerance.
    Expired,
    /// The signing primitive failed while issuing a token.
    IssueFailed,
}

/// The claims `(sub, email, exp)` recoverable from `token` under `secret`,
/// or `None` if the token is not a well-formed structure correctly signed
/// with `secret`. This names the outcome of `jsonwebtoken::decode`, which is
/// determined by the token text and the secret alone.
pub uninterp spec fn jwt_claims(token: Seq<char>, secret: Seq<char>) -> Option<(int, Seq<char>, int)>;

/// The signature verdict `jsonwebtoken::decode` reaches on `token` under
/// `secret` before any claim is trusted: `None` if the token fails the
/// checks made before the MAC comparison (three-part shape, a well-formed
/// header naming the HMAC-SHA256 algorithm, a base64-valid signature
/// segment), otherwise `Some` of whether the MAC over the header and claims
/// segments matches under `secret`. A function of the two strings alone.
pub uninterp spec fn jwt_signature_verdict(token: Seq<char>, secret: Seq<char>) -> Option<bool>;

/// The token text `jsonwebtoken::encode` produces for the claims
/// `(sub, email, exp)` under `secret`: serialization, base64 and the
/// HMAC-SHA256 MAC are all deterministic, so the text is a function of the
/// arguments alone.
pub uninterp spec fn jwt_token_of(sub: int, email: Seq<char>, exp: int, secret: Seq<char>) -> Seq<char>;

/// Relies on `jsonwebtoken::encode` with HS256: the returned token is the
/// header and the claims `{sub, email, exp}`, signed with `secret`, and
/// `jsonwebtoken::decode` under the same secret recovers exactly those
/// claims from it. The call cannot fail: an HMAC key accepts any secret
/// length, HMAC-SHA256 signing is total, and serializing these plain claims
/// cannot error.
#[verifier::external_body]
fn encode_claims(sub: i32, email: &str, exp: u64, secret: &str) -> (r: String)
    ensures
        r@ == jwt_token_of(sub as int, email@, exp as int, secret@),
        jwt_claims(r@, secret@) == Some((sub as int, email@, exp as int)),
{
    let mut claims = serde_json::Map::new();
    claims.insert("sub".to_owned(), serde_json::Value::from(sub));
    claims.insert("email".to_owned(), serde_json::Value::from(email));
    claims.insert("exp".to_owned(), serde_json::Value::from(exp));
    let key = EncodingKey::from_secret(secret.as_bytes());
    encode(&Header::new(Algorithm::HS256), &serde_json::Value::Object(claims), &key)
        .expect("HS256 signing of plain claims with a raw secret cannot fail")
}

/// Relies on `jsonwebtoken::decode` with HS256 and expiry validation turned
/// off, so that the outcome is the function of the token and the secret
/// alone named [`jwt_claims`]. The error kind is pinned by
/// [`jwt_signature_verdict`]: `InvalidSignature` exactly when the token is
/// structurally sound up to the MAC comparison and the MAC does not match;
/// every other failure is `Malformed`.
#[verifier::external_body]
fn decode_claims(token: &str, secret: &str) -> (r: Result<(i64, String, u64), TokenError>)
    ensures
        r matches Ok(c) ==> jwt_claims(token@, secret@) == Some((c.0 as int, c.1@, c.2 as int)),
        r is Ok ==> jwt_signature_verdict(token@, secret@) == Some(true),
        r is Err ==> jwt_claims(token@, secret@) is None,
        r matches Err(e) ==> e is InvalidSignature || e is Malformed,
        r matches Err(e) ==> (e is InvalidSignature <==> jwt_signature_verdict(token@, secret@)
            == Some(false)),
{
    let mut validation = Validation::new(Algorithm::HS256);
    validation.validate_exp = false;
    let key = DecodingKey::from_secret(secret.as_bytes());
    let claims = match decode::<serde_json::Value>(token, &key, &validation) {
        Ok(data) => data.claims,
        Err(e) => match e.kind() {
            ErrorKind::InvalidSignature => return Err(TokenError::InvalidSignature),
            _ => return Err(TokenError::Malformed),
        },
    };
    match (claims["sub"].as_i64(), claims["email"].as_str(), claims["exp"].as_u64()) {
        (Some(sub), Some(email), Some(exp)) => Ok((sub, email.to_owned(), exp)),
        _ => Err(TokenError::Malformed),
    }
}

/// Relies on `chrono::Utc::now`: the current unix timestamp in seconds, as
/// the system clock reports it.
#[verifier::external_body]
fn unix_now() -> i64 {
    chrono::Utc::now().timestamp()
}

/// Whether a token expiring at `exp` is still acceptable at time `now`,
/// within the skew tolerance.
pub open spec fn fresh_at(exp: int, now: int) -> bool {
    now <= exp + LEEWAY_SECS
}

/// The claims that decoding yields at time `now`: the signed claims, if the
/// token is well-signed, unexpired within tolerance, and its subject fits
/// the account identifier type; `None` otherwise.
pub open spec fn token_decode_ok(token: Seq<char>, secret: Seq<char>, now: int) -> Option<
    (int, Seq<char>, int),
> {
    match jwt_claims(token, secret) {
        Some(c) => if fresh_at(c.2, now) && i32::MIN <= c.0 <= i32::MAX {
            Some(c)
        } else {
            None
        },
        None => None,
    }
}

/// Issue the token carrying `(user_id, email, exp)` signed with `secret`.
///
/// Issuance is total and deterministic: the token text is a function of the
/// four arguments alone, and it decodes under the same secret to exactly
/// the claims it was issued with.
pub fn issue_token_at(user_id: i32, email: &str, exp: u64, secret: &str) -> (r: String)
    ensures
        r@ == jwt_token_of(user_id as int, email@, exp as int, secret@),
        jwt_claims(r@, secret@) == Some((user_id as int, email@, exp as int)),
{
    encode_claims(user_id, email, exp, secret)
}

/// Issue a token for `user_id`/`email` expiring [`TOKEN_TTL_SECS`] from now,
/// signed with `secret_key`.
///
/// The only failure is a clock reading outside the representable range;
/// given the clock's timestamp the token is deterministic in the arguments.
pub fn generate_token(user_id: i32, email: &str, secret_key: &str) -> (r: Result<
    String,
    TokenError,
>)
    ensures
        r matches Ok(t) ==> (jwt_claims(t@, secret_key@) matches Some(c) && c.0 == user_id as int
            && c.1 == email@),
        r matches Err(e) ==> e is IssueFailed,
{
    let now = unix_now();
    if now < 0 || now > i64::MAX - (TOKEN_TTL_SECS as i64) {
        return Err(TokenError::IssueFailed);
    }
    Ok(issue_token_at(user_id, email, (now as u64) + TOKEN_TTL_SECS, secret_key))
}

/// Decode `token` under `secret` as of time `now`.
///
/// The signature is judged first: a token that is not well-signed is
/// rejected without its claims being consulted, as `InvalidSignature`
/// exactly when the MAC comparison itself failed (see
/// [`jwt_signature_verdict`]) and as `Malformed` for every structural
/// failure. A well-signed token more than [`LEEWAY_SECS`] past its expiry
/// is rejected as `Expired` even though its signature is valid; a well-signed,
/// unexpired token whose subject does not fit the account identifier type is
/// `Malformed`; otherwise the signed claims are returned unchanged.
pub fn decode_token_at(token: &str, secret: &str, now: i64) -> (r: Result<Claims, TokenError>)
    ensures
        jwt_claims(token@, secret@) is None ==> (r matches Err(e) && (e is InvalidSignature
            || e is Malformed)),
        r matches Err(e) ==> (e is InvalidSignature <==> jwt_signature_verdict(token@, secret@)
            == Some(false)),
        r is Ok ==> jwt_signature_verdict(token@, secret@) == Some(true),
        jwt_claims(token@, secret@) matches Some(c) ==> {
            &&& !fresh_at(c.2, now as int) ==> r == Err::<Claims, TokenError>(TokenError::Expired)
            &&& fresh_at(c.2, now as int) && !(i32::MIN <= c.0 <= i32::MAX) ==> r == Err::<
                Claims,
                TokenError,
            >(TokenError::Malformed)
            &&& fresh_at(c.2, now as int) && i32::MIN <= c.0 <= i32::MAX ==> (r matches Ok(cl)
                && cl.sub as int == c.0 && cl.email@ == c.1 && cl.exp as int == c.2)
        },
        r matches Ok(cl) ==> token_decode_ok(token@, secret@, now as int) == Some(
            (cl.sub as int, cl.email@, cl.exp as int),
        ),
{
    match decode_claims(token, secret) {
        Err(e) => Err(e),
        Ok((sub, email, exp)) => {
            let expired = if now < 0 {
                false
            } else {
                let n = now as u64;
                if n <= LEEWAY_SECS {
                    false
                } else {
                    exp < n - LEEWAY_SECS
                }
            };
            if expired {
                Err(TokenError::Expired)
            } else if sub < i32::MIN as i64 || sub > i32::MAX as i64 {
                Err(TokenError::Malformed)
            } else {
                Ok(Claims { sub: sub as i32, email, exp })
            }
        },
    }
}

/// Decode `token` under `secret_key` as of the current clock, returning the
/// subject identifier it was issued to.
///
/// Whatever the clock read, a rejection is `InvalidSignature` exactly when
/// the MAC comparison itself failed: tampered claims are never interpreted,
/// so an ill-signed token is never reported `Expired` or by its contents.
pub fn verify_token(token: &str, secret_key: &str) -> (r: Result<i32, TokenError>)
    ensures
        r matches Ok(id) ==> (jwt_claims(token@, secret_key@) matches Some(c) && c.0 == id as int),
        jwt_claims(token@, secret_key@) is None ==> r is Err,
        r matches Err(e) ==> (e is InvalidSignature <==> jwt_signature_verdict(
            token@,
            secret_key@,
        ) == Some(false)),
        r is Ok ==> jwt_signature_verdict(token@, secret_key@) == Some(true),
{
    let now = unix_now();
    match decode_token_at(token, secret_key, now) {
        Ok(claims) => Ok(claims.sub),
        Err(e) => Err(e),
    }
}

/// Round trip: a token signed with `secret` over claims `(sub, email, exp)`
/// —as every token issued by [`issue_token_at`] or [`generate_token`] is—
/// decodes under the same secret, at any time before expiry (within
/// tolerance), to exactly those claims.
pub proof fn lemma_issue_decode_round_trip(
    token: Seq<char>,
    secret: Seq<char>,
    sub: int,
    email: Seq<char>,
    exp: int,
    now: int,
)
    requires
        jwt_claims(token, secret) == Some((sub, email, exp)),
        i32::MIN <= sub <= i32::MAX,
        fresh_at(exp, now),
    ensures
        token_decode_ok(token, secret, now) == Some((sub, email, exp)),
{
}

/// A token whose expiry is more than the skew tolerance in the past decodes
/// to nothing, even though its signature is valid.
pub proof fn lemma_expired_token_rejected(
    token: Seq<char>,
    secret: Seq<char>,
    sub: int,
    email: Seq<char>,
    exp: int,
    now: int,
)
    requires
        jwt_claims(token, secret) == Some((sub, email, exp)),
        !fresh_at(exp, now),
    ensures
        token_decode_ok(token, secret, now) is None,
{
}

} // verus!
