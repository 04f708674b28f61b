//! Password hashing with bcrypt.
//!
//! The hashing itself is `bcrypt`'s. What this module trusts of it is stated
//! on the two private functions that make the calls.

use vstd::prelude::*;
use crate::text::{starts_with, with_detail};

verus! {

#[verifier::external_type_specification]
#[verifier::external_body]
pub struct ExBcryptError(bcrypt::BcryptError);

/// What checking a password against a stored hash gives: whether the two
/// match, or nothing where the hash is malformed.
pub uninterp spec fn bcrypt_verifies(password: Seq<char>, hash: Seq<char>) -> Option<bool>;

/// Trusted: `bcrypt::hash` at the default cost salts the password at random,
/// so nothing is said of which hash comes back but this: `bcrypt::verify`
/// accepts the password against it.
#[verifier::external_body]
fn bcrypt_hash(password: &str) -> (r: Result<String, bcrypt::BcryptError>)
    ensures
        r matches Ok(h) ==> bcrypt_verifies(password@, h@) == Some(true),
{
    bcrypt::hash(password, bcrypt::DEFAULT_COST)
}

/// Trusted: `bcrypt::verify` depends on the password and the hash alone; it
/// fails on a malformed hash and otherwise tells whether the two match.
#[verifier::external_body]
fn bcrypt_verify(password: &str, hash: &str) -> (r: Result<bool, bcrypt::BcryptError>)
    ensures
        match r {
            Ok(b) => bcrypt_verifies(password@, hash@) == Some(b),
            Err(_) => bcrypt_verifies(password@, hash@) is None,
        },
{
    bcrypt::verify(password, hash)
}

/// The message of a `bcrypt` error, as its `Display` writes it.
#[verifier::external_body]
fn bcrypt_error_text(e: &bcrypt::BcryptError) -> (r: String) {
    e.to_string()
}

/// Hashes a password for storing. Two calls on one password give different
/// hashes; every hash returned verifies against the password.
pub fn hash_password(password: &str) -> (r: Result<String, String>)
    ensures
        match r {
            Ok(h) => bcrypt_verifies(password@, h@) == Some(true),
            Err(e) => starts_with(e@, "Password hashing error: "@),
        },
{
    match bcrypt_hash(password) {
        Ok(h) => Ok(h),
        Err(e) => Err(with_detail("Password hashing error: ", bcrypt_error_text(&e).as_str())),
    }
}

/// Checks a password against a stored hash. Fails exactly where the hash is
/// malformed.
pub fn verify_password(password: &str, hash: &str) -> (r: Result<bool, String>)
    ensures
        match r {
            Ok(b) => bcrypt_verifies(password@, hash@) == Some(b),
            Err(e) => bcrypt_verifies(password@, hash@) is None && starts_with(
                e@,
                "Password verification error: "@,
            ),
        },
{
    match bcrypt_verify(password, hash) {
        Ok(b) => Ok(b),
        Err(e) => Err(
            with_detail("Password verification error: ", bcrypt_error_text(&e).as_str()),
        ),
    }
}

} // verus!
