use vstd::prelude::*;

use argon2::{PasswordHasher, PasswordVerifier};

use crate::errors::AppError;
use crate::text::is_trimmed;

verus! {

/// Whether `hash` parses as a PHC-format credential hash. This is the
/// (deterministic) success condition of `argon2::PasswordHash::new`.
pub uninterp spec fn phc_valid(hash: Seq<char>) -> bool;

/// Whether the credential hash `hash` matches `password`: the
/// (deterministic) outcome of re-deriving the hash with the salt and
/// parameters encoded in `hash` and comparing in constant time.
pub uninterp spec fn phc_matches(hash: Seq<char>, password: Seq<char>) -> bool;

/// Relies on `argon2::PasswordHash::new` (the PHC parse, whose success
/// depends on the hash string alone) and `argon2::Argon2::verify_password`
/// (whose outcome depends on the parsed hash and the candidate password
/// alone); the parsed value borrows the argument and cannot leave this
/// body, so the two calls stand together.
#[verifier::external_body]
fn argon2_check(hash: &str, password: &str) -> (r: Option<bool>)
    ensures
        r is Some <==> phc_valid(hash@),
        r matches Some(b) ==> b == phc_matches(hash@, password@),
{
    let parsed = match argon2::PasswordHash::new(hash) {
        Ok(p) => p,
        Err(_) => return None,
    };
    Some(argon2::Argon2::default().verify_password(password.as_bytes(), &parsed).is_ok())
}

/// Relies on `argon2::Argon2::hash_password`: it salts with fresh system
/// randomness and returns the PHC encoding of the derived hash, which
/// parses back (`PasswordHash::new`) and verifies against the very
/// password it was derived from (`verify_password` recomputes with the
/// encoded salt and parameters and compares).
#[verifier::external_body]
fn argon2_derive(password: &str) -> (r: Option<String>)
    ensures
        r matches Some(h) ==> phc_valid(h@) && phc_matches(h@, password@),
{
    match argon2::Argon2::default().hash_password(password.as_bytes()) {
        Ok(h) => Some(h.to_string()),
        Err(_) => None,
    }
}

/// What verifying a candidate password against a stored hash reports:
/// a parse failure of the stored hash is a hashing fault, and otherwise
/// the boolean outcome of the constant-time comparison.
pub open spec fn verify_password_spec(hash: Seq<char>, password: Seq<char>) -> Result<
    bool,
    AppError,
> {
    if phc_valid(hash) {
        Ok(phc_matches(hash, password))
    } else {
        Err(AppError::HashingError)
    }
}

/// Recomputes the stored credential hash for `password` and compares in
/// constant time. A mismatch is `Ok(false)`, not an error; only a stored
/// hash that cannot be parsed is reported as a hashing fault.
pub fn verify_password(hash: &str, password: &str) -> (r: Result<bool, AppError>)
    ensures
        r == verify_password_spec(hash@, password@),
{
    match argon2_check(hash, password) {
        Some(b) => Ok(b),
        None => Err(AppError::HashingError),
    }
}

/// Derives a one-way, salted credential hash for `password`. Each call
/// salts afresh, so two calls on the same password give different
/// encodings; every returned encoding is well formed and matches the
/// password it was derived from. Callers trim first and never pass an
/// empty password; the only failure is an internal cryptographic fault.
pub fn hashing_password(password: &str) -> (r: Result<String, AppError>)
    requires
        password@.len() > 0,
        is_trimmed(password@),
    ensures
        r matches Ok(h) ==> phc_valid(h@) && phc_matches(h@, password@),
        r matches Err(e) ==> e == AppError::HashingError,
{
    match argon2_derive(password) {
        Some(h) => Ok(h),
        None => Err(AppError::HashingError),
    }
}

/// A freshly derived hash verifies against its own password: any hash
/// with the two properties that `hashing_password` ensures of its result
/// is reported as a match by `verify_password`.
pub proof fn lemma_verify_after_hash(hash: Seq<char>, password: Seq<char>)
    requires
        phc_valid(hash),
        phc_matches(hash, password),
    ensures
        verify_password_spec(hash, password) == Ok::<bool, AppError>(true),
{
}

/// Hashing salts afresh on every call, so two hashes of one password may
/// differ as encodings — yet each of them verifies against that password.
pub proof fn lemma_two_hashes_both_verify(first: Seq<char>, second: Seq<char>, password: Seq<char>)
    requires
        phc_valid(first),
        phc_matches(first, password),
        phc_valid(second),
        phc_matches(second, password),
    ensures
        verify_password_spec(first, password) == Ok::<bool, AppError>(true),
        verify_password_spec(second, password) == Ok::<bool, AppError>(true),
{
}

} // verus!
