//! Password hashing and checking with bcrypt.

use vstd::prelude::*;
use crate::error::{ErrorKind, Failure};

verus! {

#[verifier::external_type_specification]
#[verifier::external_body]
pub struct ExBcryptError(bcrypt::BcryptError);

/// What bcrypt's verification says of a password against a stored hash: whether it
/// matches, or `None` when the hash cannot be read.
pub uninterp spec fn bcrypt_outcome(password: Seq<char>, hash: Seq<char>) -> Option<bool>;

/// Relies on bcrypt::verify: it rehashes the password with the cost and salt read from
/// the stored hash and compares; the answer depends on the two strings alone, and an
/// unreadable hash is an error.
#[verifier::external_body]
fn bcrypt_verify(password: &str, hash: &str) -> (r: Result<bool, bcrypt::BcryptError>)
    ensures
        r matches Ok(b) ==> bcrypt_outcome(password@, hash@) == Some(b),
        r is Err ==> bcrypt_outcome(password@, hash@) is None,
{
    bcrypt::verify(password, hash)
}

/// A stored bcrypt hash of cost 12: `$2b$12$`, then 22 characters of salt and 31 of hash.
pub open spec fn bcrypt_form(h: Seq<char>) -> bool {
    h.len() == 60 && h.subrange(0, 7) == "$2b$12$"@
}

/// Relies on bcrypt::hash with bcrypt::DEFAULT_COST (12): it hashes the password under a
/// fresh random salt, so the hash is not a function of the password; it formats the result
/// as `$2b$12$` followed by the 22-character salt and the 31-character hash, and
/// bcrypt::verify accepts the password against it.
#[verifier::external_body]
fn bcrypt_hash(password: &str) -> (r: Result<String, bcrypt::BcryptError>)
    ensures
        r matches Ok(h) ==> bcrypt_outcome(password@, h@) == Some(true),
        r matches Ok(h) ==> bcrypt_form(h@),
{
    bcrypt::hash(password, bcrypt::DEFAULT_COST)
}

/// Whether `password` matches the stored `hash`; an unreadable hash matches nothing.
pub fn check_password(password: &str, hash: &str) -> (r: bool)
    ensures
        r == (bcrypt_outcome(password@, hash@) == Some(true)),
{
    match bcrypt_verify(password, hash) {
        Ok(b) => b,
        Err(_) => false,
    }
}

/// Hashes a password for storage; a hashing failure is `Internal`.
pub fn hash_password(password: &str) -> (r: Result<String, Failure>)
    ensures
        r matches Ok(h) ==> bcrypt_outcome(password@, h@) == Some(true),
        r matches Ok(h) ==> bcrypt_form(h@),
        r matches Err(f) ==> f.kind == ErrorKind::Internal,
{
    match bcrypt_hash(password) {
        Ok(h) => Ok(h),
        Err(_) => Err(Failure::new(ErrorKind::Internal, "Internal Server Error")),
    }
}

} // verus!
