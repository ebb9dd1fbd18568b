use vstd::prelude::*;

use argon2::password_hash::{PasswordHash, SaltString};
use argon2::{Argon2, PasswordHasher, PasswordVerifier};

use crate::response::{ApiError, ErrView};

verus! {

/// The deterministic outcome of checking a plaintext against a serialized
/// salted hash: `None` when the stored string is rejected (it does not parse
/// as a hash, or parses but cannot be recomputed against), `Some(b)` whether
/// the digest recomputed from the embedded salt and parameters matches.
pub uninterp spec fn phc_outcome(password: Seq<char>, stored: Seq<char>) -> Option<bool>;

/// Relies on argon2's `PasswordHasher::hash_password` with a fresh OS-random
/// salt: the produced string embeds the salt and parameters it was derived
/// under, so `PasswordVerifier::verify_password` recomputes the same digest
/// for the same plaintext and accepts it, whatever salt was drawn.
#[verifier::external_body]
fn argon2_hash(password: &str) -> (r: Option<String>)
    ensures
        r matches Some(h) ==> phc_outcome(password@, h@) == Some(true),
{
    let salt = SaltString::generate(&mut rand::rngs::OsRng);
    match Argon2::default().hash_password(password.as_bytes(), &salt) {
        Ok(h) => Some(h.to_string()),
        Err(_) => None,
    }
}

/// Relies on `PasswordHash::new` and argon2's
/// `PasswordVerifier::verify_password`: both read only the plaintext bytes
/// and the stored string, so the three-way outcome (malformed serialization /
/// match / mismatch) is a pure function of the two.
#[verifier::external_body]
fn argon2_check(password: &str, stored: &str) -> (r: Option<bool>)
    ensures
        r == phc_outcome(password@, stored@),
{
    let parsed = match PasswordHash::new(stored) {
        Ok(p) => p,
        Err(_) => return None,
    };
    match Argon2::default().verify_password(password.as_bytes(), &parsed) {
        Ok(()) => Some(true),
        Err(argon2::password_hash::Error::Password) => Some(false),
        Err(_) => None,
    }
}

/// Derives a fresh salted, memory-hard hash for a credential.  Whatever salt
/// was drawn, the result verifies against the same plaintext; a failure
/// inside the derivation surfaces as an internal error.
pub fn hash_password(password: &String) -> (r: Result<String, ApiError>)
    ensures
        r matches Ok(h) ==> phc_outcome(password@, h@) == Some(true),
        r matches Err(e) ==> e@ == (ErrView::Internal {
            title: "failed to generate password hash"@,
            cause: None,
        }),
{
    match argon2_hash(password.as_str()) {
        Some(h) => Ok(h),
        None => Err(
            ApiError::Internal {
                title: "failed to generate password hash".to_owned(),
                cause: None,
            },
        ),
    }
}

/// Checks a plaintext against a stored hash: `Ok(false)` on a mismatch, and
/// a distinguishable internal failure — under a fixed generic message that
/// never carries the plaintext — only when the stored hash is not a
/// recognized serialization.
pub fn verify_password(password: &String, password_hash: &String) -> (r: Result<bool, ApiError>)
    ensures
        match phc_outcome(password@, password_hash@) {
            Some(b) => r == Result::<bool, ApiError>::Ok(b),
            None => r matches Err(e) && e@ == (ErrView::Internal {
                title: "invalid password hash"@,
                cause: None,
            }),
        },
{
    match argon2_check(password.as_str(), password_hash.as_str()) {
        Some(b) => Ok(b),
        None => Err(
            ApiError::Internal { title: "invalid password hash".to_owned(), cause: None },
        ),
    }
}

} // verus!
