//! The per-request authentication gate.
//!
//! A protected request moves through stages: the bearer
//! credential is extracted from the authorization header, the token is
//! decoded and judged by the codec, the subject is resolved against the
//! identity store, and only then is an identity admitted. The store lookup
//! is the one outside step; the surrounding process performs it between
//! [`validate_bearer`] and [`resolve_identity`] and hands the outcome in as
//! a plain [`LookupResult`] value, so every decision here is verified.
//!
//! Admission fails closed: an identity comes out only if the token was
//! well-signed, unexpired within tolerance, and resolved to a stored record
//! with the token's own subject.

use vstd::prelude::*;

use crate::errors::AuthError;
use crate::model::User;
use crate::token::{
    decode_token_at, token_decode_ok, jwt_claims, jwt_signature_verdict, fresh_at, Claims,
    TokenError,
};

verus! {

/// What the identity store reported for a subject lookup.
#[derive(Debug, Clone)]
pub enum LookupResult {
    /// The record stored under the looked-up identifier.
    Found(User),
    /// No record is stored under the identifier.
    Missing,
    /// The store could not be reached or failed.
    Failed,
}

/// The token carried by an authorization header value, if the value is a
/// bearer credential: the text after the `Bearer ` scheme prefix.
pub open spec fn bearer_token_of(header: Seq<char>) -> Option<Seq<char>> {
    if header.len() >= 7 && header.subrange(0, 7) == "Bearer "@ {
        Some(header.skip(7))
    } else {
        None
    }
}

/// Extract the bearer token from an authorization header.
///
/// A missing header is rejected distinctly from a present one that is not a
/// bearer credential.
pub fn extract_bearer(header: Option<&str>) -> (r: Result<String, AuthError>)
    ensures
        header is None ==> r == Err::<String, AuthError>(AuthError::MissingCredential),
        header matches Some(h) ==> {
            &&& bearer_token_of(h@) is None ==> r == Err::<String, AuthError>(
                AuthError::MalformedCredential,
            )
            &&& bearer_token_of(h@) matches Some(t) ==> (r matches Ok(tok) && tok@ == t)
        },
{
    proof {
        reveal_strlit("Bearer ");
    }
    match header {
        None => Err(AuthError::MissingCredential),
        Some(h) => {
            let len = h.unicode_len();
            if len < 7 {
                return Err(AuthError::MalformedCredential);
            }
            let prefix_ok = h.get_char(0) == 'B' && h.get_char(1) == 'e' && h.get_char(2) == 'a'
                && h.get_char(3) == 'r' && h.get_char(4) == 'e' && h.get_char(5) == 'r'
                && h.get_char(6) == ' ';
            if !prefix_ok {
                proof {
                    assert(h@.subrange(0, 7) != "Bearer "@) by {
                        if h@.subrange(0, 7) == "Bearer "@ {
                            assert(h@[0] == h@.subrange(0, 7)[0]);
                            assert(h@[1] == h@.subrange(0, 7)[1]);
                            assert(h@[2] == h@.subrange(0, 7)[2]);
                            assert(h@[3] == h@.subrange(0, 7)[3]);
                            assert(h@[4] == h@.subrange(0, 7)[4]);
                            assert(h@[5] == h@.subrange(0, 7)[5]);
                            assert(h@[6] == h@.subrange(0, 7)[6]);
                        }
                    }
                }
                return Err(AuthError::MalformedCredential);
            }
            proof {
                assert(h@.subrange(0, 7) =~= "Bearer "@);
            }
            let token = h.substring_char(7, len);
            proof {
                assert(token@ =~= h@.skip(7));
            }
            Ok(token.to_owned())
        },
    }
}

/// Extract and decode the bearer credential of a request as of time `now`.
///
/// Every failure—missing header, non-bearer credential, or any verdict of
/// the codec—is kept as its exact internal cause, and the rejection is
/// `InvalidSignature` exactly when a bearer token was presented and its MAC
/// comparison failed; an `Ok` comes out only for a well-signed, unexpired
/// token, and then carries exactly the signed claims.
pub fn validate_bearer(header: Option<&str>, secret: &str, now: i64) -> (r: Result<
    Claims,
    AuthError,
>)
    ensures
        header is None ==> r == Err::<Claims, AuthError>(AuthError::MissingCredential),
        header matches Some(h) ==> bearer_token_of(h@) is None ==> r == Err::<Claims, AuthError>(
            AuthError::MalformedCredential,
        ),
        header matches Some(h) ==> bearer_token_of(h@) matches Some(t) ==> {
            &&& jwt_claims(t, secret@) is None ==> (r matches Err(e) && e matches
                AuthError::InvalidToken(te) && (te is InvalidSignature || te is Malformed))
            &&& jwt_claims(t, secret@) matches Some(c) ==> {
                &&& !fresh_at(c.2, now as int) ==> r == Err::<Claims, AuthError>(
                    AuthError::InvalidToken(TokenError::Expired),
                )
                &&& fresh_at(c.2, now as int) && !(i32::MIN <= c.0 <= i32::MAX) ==> r == Err::<
                    Claims,
                    AuthError,
                >(AuthError::InvalidToken(TokenError::Malformed))
                &&& fresh_at(c.2, now as int) && i32::MIN <= c.0 <= i32::MAX ==> (r matches Ok(cl)
                    && cl.sub as int == c.0 && cl.email@ == c.1 && cl.exp as int == c.2)
            }
        },
        r matches Err(e) ==> (e == AuthError::InvalidToken(TokenError::InvalidSignature) <==> (
        header matches Some(h) && bearer_token_of(h@) matches Some(t) && jwt_signature_verdict(
            t,
            secret@,
        ) == Some(false))),
        r matches Ok(cl) ==> (header matches Some(h) && bearer_token_of(h@) matches Some(t)
            && token_decode_ok(t, secret@, now as int) == Some(
            (cl.sub as int, cl.email@, cl.exp as int),
        )),
{
    let token = match extract_bearer(header) {
        Ok(token) => token,
        Err(e) => return Err(e),
    };
    match decode_token_at(token.as_str(), secret, now) {
        Ok(claims) => Ok(claims),
        Err(te) => Err(AuthError::InvalidToken(te)),
    }
}

/// Judge the identity store's answer for the subject of validated claims.
///
/// The identity admitted is exactly the record the store returned, and only
/// when that record exists and carries the token's own subject identifier;
/// a token referencing a since-deleted account, and a store failure, are
/// both rejections.
pub fn resolve_identity(claims: &Claims, lookup: LookupResult) -> (r: Result<User, AuthError>)
    ensures
        lookup is Failed ==> r == Err::<User, AuthError>(AuthError::StorageFailure),
        lookup is Missing ==> r == Err::<User, AuthError>(AuthError::IdentityNotFound),
        lookup matches LookupResult::Found(u) ==> if u.id == Some(claims.sub) {
            r == Ok::<User, AuthError>(u)
        } else {
            r == Err::<User, AuthError>(AuthError::IdentityNotFound)
        },
        r matches Ok(u) ==> lookup == LookupResult::Found(u) && u.id == Some(claims.sub),
{
    match lookup {
        LookupResult::Failed => Err(AuthError::StorageFailure),
        LookupResult::Missing => Err(AuthError::IdentityNotFound),
        LookupResult::Found(u) => match u.id {
            Some(id) => if id == claims.sub {
                Ok(u)
            } else {
                Err(AuthError::IdentityNotFound)
            },
            None => Err(AuthError::IdentityNotFound),
        },
    }
}

/// No identity is admitted without a valid token: whenever both stages
/// pass—the claims decode from the presented token and the store's record
/// carries the token's subject—the admitted identity is the stored record
/// for the subject of a token that was well-signed under the process secret
/// and unexpired at validation time.
pub proof fn lemma_admission_fail_closed(
    token: Seq<char>,
    secret: Seq<char>,
    now: int,
    sub: int,
    email: Seq<char>,
    exp: int,
)
    requires
        token_decode_ok(token, secret, now) == Some((sub, email, exp)),
    ensures
        jwt_claims(token, secret) == Some((sub, email, exp)),
        fresh_at(exp, now),
{
}

} // verus!
