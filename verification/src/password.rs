//! Password hashing and verification.

use vstd::prelude::*;
use crate::errors::{hashing_failure, outcome, verification_failure, AppError, ErrorKind, Failure};
use crate::outside::{
    bcrypt_error_text, bcrypt_hash, bcrypt_verdict, bcrypt_verify, is_bcrypt_hash,
};

verus! {

/// What hashing `password` may return: a hash of the fixed cost that
/// verifies against the password, or the hashing error. Which hash it is
/// depends on a random salt.
pub open spec fn hashed_from(password: Seq<char>, result: Result<String, AppError>) -> bool {
    match result {
        Ok(hash) => is_bcrypt_hash(hash@) && bcrypt_verdict(password, hash@) == Some(true),
        Err(error) => error.told() == hashing_failure(),
    }
}

/// What the caller is told for each verdict of bcrypt: a mismatch is
/// `Ok(false)`, never an error; only a malformed hash is an error.
pub open spec fn checked(verdict: Option<bool>) -> Result<bool, Failure> {
    match verdict {
        Some(matches) => Ok(matches),
        None => Err(verification_failure()),
    }
}

/// The verdict inside an answer of bcrypt.
pub open spec fn verdict_of(answer: Result<bool, bcrypt::BcryptError>) -> Option<bool> {
    match answer {
        Ok(matches) => Some(matches),
        Err(_) => None,
    }
}

/// Hashes a password with a fresh random salt.
pub fn hash_password(password: &str) -> (result: Result<String, AppError>)
    ensures
        hashed_from(password@, result),
{
    match bcrypt_hash(password) {
        Ok(hash) => Ok(hash),
        Err(cause) => Err(AppError::from_hashing(cause)),
    }
}

/// Turns an answer of bcrypt into the result reported to the caller.
pub fn password_verdict(answer: Result<bool, bcrypt::BcryptError>) -> (result: Result<
    bool,
    AppError,
>)
    ensures
        outcome(result) == checked(verdict_of(answer)),
{
    match answer {
        Ok(matches) => Ok(matches),
        Err(cause) => Err(
            AppError::caused(
                ErrorKind::Hashing,
                "could not verify password",
                bcrypt_error_text(&cause),
            ),
        ),
    }
}

/// Checks a password against a stored hash.
pub fn verify_password(password: &str, hash: &str) -> (result: Result<bool, AppError>)
    ensures
        outcome(result) == checked(bcrypt_verdict(password@, hash@)),
{
    password_verdict(bcrypt_verify(password, hash))
}

/// A hash made from a password verifies against that password: whatever
/// [`hash_password`] returned on success, [`verify_password`] answers
/// `Ok(true)` for the same password and that hash.
pub proof fn lemma_own_hash_verifies(
    password: Seq<char>,
    hashed: Result<String, AppError>,
    verified: Result<bool, AppError>,
)
    requires
        hashed_from(password, hashed),
        hashed is Ok,
        outcome(verified) == checked(bcrypt_verdict(password, hashed->Ok_0@)),
    ensures
        verified == Ok::<bool, AppError>(true),
{
}

} // verus!
