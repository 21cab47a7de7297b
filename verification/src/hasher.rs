//! One-way password hashing and verification.
//!
//! Hashing is done by Argon2 with a fresh random salt per call; the produced
//! PHC string embeds the algorithm parameters and the salt, so verification
//! recomputes the hash from the string alone. Whether a password matches a
//! given PHC string is a function of the two strings alone; that function is
//! named [`password_matches`], and both directions of the API are specified
//! over it.

use vstd::prelude::*;

use argon2::{Argon2, PasswordHash, PasswordHasher, PasswordVerifier};

verus! {

/// How hashing or verification can fail.
#[derive(Debug, Clone, Copy, PartialEq, Eq, Structural)]
pub enum HashingError {
    /// The stored hash string is not a structurally valid PHC string; a
    /// data-corruption or configuration fault, not a failed verification.
    MalformedHash,
    /// The hashing primitive or its random source failed; fatal and
    /// unexpected.
    CryptoFault,
}

/// Whether password `plaintext` matches the PHC hash string `phc`: the
/// outcome of recomputing the hash with the salt and parameters embedded in
/// `phc` and comparing. This names the outcome of
/// `argon2::Argon2::verify_password`, which is determined by the two strings
/// alone.
pub uninterp spec fn password_matches(plaintext: Seq<char>, phc: Seq<char>) -> bool;

/// Whether `phc` is a structurally valid PHC hash string. This names the
/// success of `argon2::PasswordHash::new`, which is determined by the string
/// alone.
pub uninterp spec fn phc_well_formed(phc: Seq<char>) -> bool;

/// Relies on `argon2::Argon2::hash_password` with a fresh random salt:
/// whatever salt is drawn, the returned PHC string parses back and verifies
/// against the same password.
#[verifier::external_body]
fn argon2_hash(plaintext: &str) -> (r: Result<String, HashingError>)
    ensures
        r matches Ok(h) ==> phc_well_formed(h@) && password_matches(plaintext@, h@),
        r matches Err(e) ==> e is CryptoFault,
{
    match Argon2::default().hash_password(plaintext.as_bytes()) {
        Ok(hash) => Ok(hash.to_string()),
        Err(_) => Err(HashingError::CryptoFault),
    }
}

/// Relies on `argon2::PasswordHash::new`, whose success is named
/// [`phc_well_formed`], and `argon2::Argon2::verify_password`, whose outcome
/// is named [`password_matches`]: any verification failure on a well-formed
/// hash string is a mismatch, never an error.
#[verifier::external_body]
fn argon2_verify(plaintext: &str, phc: &str) -> (r: Result<bool, HashingError>)
    ensures
        r is Ok <==> phc_well_formed(phc@),
        r matches Ok(b) ==> b == password_matches(plaintext@, phc@),
        r matches Err(e) ==> e is MalformedHash,
{
    let parsed = match PasswordHash::new(phc) {
        Ok(parsed) => parsed,
        Err(_) => return Err(HashingError::MalformedHash),
    };
    Ok(Argon2::default().verify_password(plaintext.as_bytes(), &parsed).is_ok())
}

/// Hash `plaintext` with a freshly drawn random salt, producing a
/// self-describing PHC string that verifies against `plaintext` and embeds
/// everything needed to verify it later. Fails only on a fault of the
/// hashing primitive or its random source.
pub fn hash_password(plaintext: &str) -> (r: Result<String, HashingError>)
    ensures
        r matches Ok(h) ==> phc_well_formed(h@) && password_matches(plaintext@, h@),
        r matches Err(e) ==> e is CryptoFault,
{
    argon2_hash(plaintext)
}

/// Verify `plaintext` against the stored hash string `hash_str`.
///
/// Returns exactly whether the password matches; an error is reported only
/// when `hash_str` itself is malformed, never for a mismatch.
pub fn verify_password(plaintext: &str, hash_str: &str) -> (r: Result<bool, HashingError>)
    ensures
        r is Ok <==> phc_well_formed(hash_str@),
        r matches Ok(b) ==> b == password_matches(plaintext@, hash_str@),
        r matches Err(e) ==> e is MalformedHash,
{
    argon2_verify(plaintext, hash_str)
}

} // verus!
