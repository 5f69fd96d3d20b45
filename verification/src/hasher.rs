//! Password hashing. Passwords are stored only as salted bcrypt hashes.

use vstd::prelude::*;
use crate::error::CommandError;

verus! {

/// The error that `bcrypt::hash` and `bcrypt::verify` return.
#[verifier::external_type_specification]
#[verifier::external_body]
pub struct ExBcryptError(bcrypt::BcryptError);

/// What `bcrypt::verify` answers for a password and a stored hash: `Some(b)`
/// where it returns `Ok(b)`, `None` where it returns an error.
pub uninterp spec fn verify_outcome(password: Seq<char>, hash: Seq<char>) -> Option<bool>;

/// Whether `hash` is a well-formed hash that `password` reproduces.
pub open spec fn verifies(password: Seq<char>, hash: Seq<char>) -> bool {
    verify_outcome(password, hash) == Some(true)
}

/// Calls `bcrypt::hash` with `bcrypt::DEFAULT_COST`. The salt is random, so
/// the contract claims only what holds of every hash that comes back: that
/// `bcrypt::verify` accepts the same password against it.
#[verifier::external_body]
fn bcrypt_hash(password: &str) -> (r: Result<String, bcrypt::BcryptError>)
    ensures
        r matches Ok(h) ==> verify_outcome(password@, h@) == Some(true),
{
    bcrypt::hash(password, bcrypt::DEFAULT_COST)
}

/// Calls `bcrypt::verify`. The contract claims that the result is a function
/// of the two strings alone, and names it.
#[verifier::external_body]
fn bcrypt_verify(password: &str, hash: &str) -> (r: Result<bool, bcrypt::BcryptError>)
    ensures
        r matches Ok(b) ==> verify_outcome(password@, hash@) == Some(b),
        r is Err ==> verify_outcome(password@, hash@) is None,
{
    bcrypt::verify(password, hash)
}

/// Calls `to_string` on a `bcrypt::BcryptError`. Nothing is claimed of the
/// text.
#[verifier::external_body]
fn bcrypt_error_text(e: &bcrypt::BcryptError) -> (r: String) {
    e.to_string()
}

/// Hashes a password with a fresh salt. Every hash that comes back verifies
/// against the password; a failure of the primitive is a `HashingError`.
pub fn hash(plaintext: &str) -> (r: Result<String, CommandError>)
    ensures
        r matches Ok(h) ==> verifies(plaintext@, h@),
        r matches Err(e) ==> e is HashingError,
{
    match bcrypt_hash(plaintext) {
        Ok(h) => Ok(h),
        Err(e) => Err(CommandError::HashingError { message: bcrypt_error_text(&e) }),
    }
}

/// Whether `plaintext` reproduces `hash`. A stored hash that cannot be read
/// is a `HashingError`.
pub fn verify(plaintext: &str, hash: &str) -> (r: Result<bool, CommandError>)
    ensures
        r matches Ok(b) ==> verify_outcome(plaintext@, hash@) == Some(b),
        r matches Err(e) ==> e is HashingError && verify_outcome(plaintext@, hash@) is None,
{
    match bcrypt_verify(plaintext, hash) {
        Ok(b) => Ok(b),
        Err(e) => Err(CommandError::HashingError { message: bcrypt_error_text(&e) }),
    }
}

} // verus!
