//! The login flow: credentials in, bearer token out.
//!
//! The identity store lookup by email is the one outside step; the
//! surrounding process performs it and hands the outcome in as a plain
//! [`LookupResult`] value, together with the clock reading. Every decision—
//! which failures collapse to which internal cause, when a token is owed,
//! and what that token carries—is verified here.
//!
//! An unknown email and a known email with a wrong password produce causes
//! that map to the identical external outcome, so a caller cannot probe
//! which accounts exist.

use vstd::prelude::*;

use crate::errors::AuthError;
use crate::gate::LookupResult;
use crate::hasher::{password_matches, phc_well_formed, verify_password};
use crate::token::{issue_token_at, jwt_claims, jwt_token_of, TOKEN_TTL_SECS};

verus! {

/// The credentials presented to the login endpoint.
#[derive(Debug, Clone)]
pub struct LoginPayload {
    pub email: String,
    pub password: String,
}

/// The successful login response: the bearer token and its fixed type
/// label. Neither the password hash nor the secret ever appears in it.
#[derive(Debug, Clone)]
pub struct LoginResponse {
    pub access_token: String,
    pub token_type: String,
}

/// Decide a login attempt, given the identity store's answer for the
/// payload's email and the current time.
///
/// On a stored record whose hash matches the supplied password, success is
/// owed: a token bound to the record's identifier and email, expiring
/// [`TOKEN_TTL_SECS`] from `now`, labelled `Bearer`. A missing record and a mismatched
/// password are distinct internal causes that collapse to the same external
/// outcome; a store failure and a corrupt stored hash are kept distinct
/// internally as well.
pub fn login(payload: &LoginPayload, lookup: LookupResult, secret: &str, now: i64) -> (r: Result<
    LoginResponse,
    AuthError,
>)
    requires
        0 <= now,
        now + TOKEN_TTL_SECS <= i64::MAX,
    ensures
        lookup is Failed ==> r == Err::<LoginResponse, AuthError>(AuthError::StorageFailure),
        lookup is Missing ==> r == Err::<LoginResponse, AuthError>(AuthError::IdentityNotFound),
        lookup matches LookupResult::Found(u) ==> {
            &&& u.id is None ==> r == Err::<LoginResponse, AuthError>(
                AuthError::InvalidCredentials,
            )
            &&& u.id matches Some(uid) ==> {
                &&& !phc_well_formed(u.hashed_password@) ==> r == Err::<LoginResponse, AuthError>(
                    AuthError::HashingFailure,
                )
                &&& phc_well_formed(u.hashed_password@) && !password_matches(
                    payload.password@,
                    u.hashed_password@,
                ) ==> r == Err::<LoginResponse, AuthError>(AuthError::InvalidCredentials)
                &&& phc_well_formed(u.hashed_password@) && password_matches(
                    payload.password@,
                    u.hashed_password@,
                ) ==> (r matches Ok(resp) && resp.token_type@ == "Bearer"@
                    && resp.access_token@ == jwt_token_of(
                    uid as int,
                    u.email@,
                    now + TOKEN_TTL_SECS,
                    secret@,
                ) && jwt_claims(resp.access_token@, secret@) == Some(
                    (uid as int, u.email@, now + TOKEN_TTL_SECS),
                ))
            }
        },
        r matches Ok(resp) ==> (lookup matches LookupResult::Found(u) && u.id is Some && password_matches(
            payload.password@,
            u.hashed_password@,
        )),
{
    let user = match lookup {
        LookupResult::Failed => return Err(AuthError::StorageFailure),
        LookupResult::Missing => return Err(AuthError::IdentityNotFound),
        LookupResult::Found(user) => user,
    };
    let user_id = match user.id {
        Some(id) => id,
        None => return Err(AuthError::InvalidCredentials),
    };
    let pw_ok = match verify_password(payload.password.as_str(), user.hashed_password.as_str()) {
        Ok(pw_ok) => pw_ok,
        Err(_) => return Err(AuthError::HashingFailure),
    };
    if !pw_ok {
        return Err(AuthError::InvalidCredentials);
    }
    let exp = (now as u64) + TOKEN_TTL_SECS;
    let token = issue_token_at(user_id, user.email.as_str(), exp, secret);
    Ok(LoginResponse { access_token: token, token_type: "Bearer".to_owned() })
}

} // verus!
