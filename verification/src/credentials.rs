//! Password hashing and verification.
//!
//! Hashing draws a fresh random salt on every call and returns a
//! self-describing encoded string; verification re-derives the digest
//! from the parameters embedded in that string.  The memory-hard hash
//! itself is the argon2 crate's; what this module proves is how the
//! service uses it.

use vstd::prelude::*;

use crate::error::Error;

verus! {

/// What `argon2::verify_encoded` decides for an encoded hash and a
/// password: `None` when the encoded hash is malformed, otherwise
/// whether the password matches the hash.
pub uninterp spec fn argon_verify(hash: Seq<char>, password: Seq<u8>) -> Option<bool>;

/// Relies on `rand::random`: 32 bytes drawn from the thread-local
/// cryptographically secure generator.  Nothing can be promised of
/// their values.
#[verifier::external_body]
fn random_salt() -> (r: Vec<u8>)
    ensures
        r@.len() == 32,
{
    rand::random::<[u8; 32]>().to_vec()
}

/// Relies on `argon2::hash_encoded`: with the default configuration and
/// a 32-byte salt every password of machine-representable length hashes
/// successfully, and `argon2::verify_encoded` accepts the encoded
/// result together with the hashed password.
#[verifier::external_body]
fn argon2_hash(password: &[u8], salt: &Vec<u8>) -> (r: Result<String, Error>)
    requires
        salt@.len() == 32,
        password@.len() <= u32::MAX,
    ensures
        r is Ok,
        r matches Ok(h) ==> argon_verify(h@, password@) == Some(true),
{
    match argon2::hash_encoded(password, salt.as_slice(), &argon2::Config::default()) {
        Ok(h) => Ok(h),
        Err(_) => Err(Error::ArgonLibraryError),
    }
}

/// Relies on `argon2::verify_encoded`: deterministic in the encoded
/// hash and the password; it fails exactly when the encoded hash cannot
/// be parsed, and otherwise reports whether the password matches.
#[verifier::external_body]
fn argon2_verify(hash: &str, password: &[u8]) -> (r: Result<bool, Error>)
    ensures
        match r {
            Ok(b) => argon_verify(hash@, password@) == Some(b),
            Err(e) => argon_verify(hash@, password@) is None && e == Error::ArgonLibraryError,
        },
{
    match argon2::verify_encoded(hash, password) {
        Ok(b) => Ok(b),
        Err(_) => Err(Error::ArgonLibraryError),
    }
}

/// Hash a password under a fresh 32-byte random salt.
///
/// The returned encoding always verifies against the password it was
/// derived from.  Because the salt is drawn anew on every call, two
/// calls on the same password are expected to differ.
pub fn hash_password(password: &[u8]) -> (r: String)
    requires
        password@.len() <= u32::MAX,
    ensures
        argon_verify(r@, password@) == Some(true),
{
    let salt = random_salt();
    argon2_hash(password, &salt).unwrap()
}

/// Check a password against a stored encoded hash.
///
/// A well-formed hash with a non-matching password is `Ok(false)`, not
/// an error; only a malformed stored hash is an error.
pub fn verify_password(hash: &str, password: &[u8]) -> (r: Result<bool, Error>)
    ensures
        match r {
            Ok(b) => argon_verify(hash@, password@) == Some(b),
            Err(e) => argon_verify(hash@, password@) is None && e == Error::ArgonLibraryError,
        },
{
    argon2_verify(hash, password)
}

} // verus!
