//! The authentication service: registration, login, and the
//! request-scoped authorization decision.
//!
//! The account store is an external collaborator.  Registration
//! prepares the account that the store is asked to insert; login takes
//! the account the store fetched (or its absence) and decides; the
//! authorization filter takes the bearer credential a request carried
//! (or its absence) and decides.

use vstd::prelude::*;
use vstd::utf8::encode_utf8;

use crate::account::{Account, Session};
use crate::credentials::{argon_verify, hash_password, verify_password};
use crate::error::Error;
use crate::token::{
    claims_rep, issue_token, issued_session, paseto_message, spec_verify_token, TokenKey,
    VALIDITY_WINDOW_SECS,
};

verus! {

/// Prepare a registration: replace the submitted raw password by its
/// salted hash, leaving identifier and email as they were.  The caller
/// hands the result to the store; the raw password is never stored.
///
/// A password too long for the hashing algorithm is rejected as a
/// hashing failure.
pub fn register(account: Account) -> (r: Result<Account, Error>)
    ensures
        encode_utf8(account.password@).len() > u32::MAX ==> r == Err::<Account, Error>(
            Error::ArgonLibraryError,
        ),
        encode_utf8(account.password@).len() <= u32::MAX ==> (r matches Ok(a) && a.id == account.id
            && a.email == account.email && argon_verify(a.password@, encode_utf8(account.password@))
            == Some(true)),
{
    let bytes = account.password.as_str().as_bytes();
    if bytes.len() > u32::MAX as usize {
        return Err(Error::ArgonLibraryError);
    }
    let hashed = hash_password(bytes);
    Ok(Account { id: account.id, email: account.email, password: hashed })
}

/// Decide a login, given the account the store fetched for the
/// submitted email (or `None` when the store found none) and the
/// credentials the client submitted.
///
/// An unknown email and a wrong password are deliberately the same
/// failure, so the wire reply leaks nothing about which one it was.  A
/// token is only ever issued after the submitted password verified
/// against the stored hash.
pub fn login(key: &TokenKey, stored: Option<Account>, credentials: &Account) -> (r: Result<
    String,
    Error,
>)
    requires
        key.wf(),
        stored matches Some(a) ==> a.id is Some,
    ensures
        stored is None ==> r == Err::<String, Error>(Error::WrongPassword),
        stored matches Some(a) && argon_verify(a.password@, encode_utf8(credentials.password@))
            is None ==> r == Err::<String, Error>(Error::ArgonLibraryError),
        stored matches Some(a) && argon_verify(a.password@, encode_utf8(credentials.password@))
            == Some(false) ==> r == Err::<String, Error>(Error::WrongPassword),
        r matches Ok(t) ==> (stored matches Some(a) && argon_verify(
            a.password@,
            encode_utf8(credentials.password@),
        ) == Some(true) && exists|n: i64|
            paseto_message(key@, t@) == Some(
                claims_rep(#[trigger] issued_session(a.id->0, n)),
            ) && n + VALIDITY_WINDOW_SECS <= i64::MAX),
        stored matches Some(a) && argon_verify(a.password@, encode_utf8(credentials.password@))
            == Some(true) ==> (r is Ok || r == Err::<String, Error>(Error::CannotDecryptToken)),
{
    let account = match stored {
        Some(a) => a,
        None => {
            return Err(Error::WrongPassword);
        },
    };
    let verified = match verify_password(
        account.password.as_str(),
        credentials.password.as_str().as_bytes(),
    ) {
        Ok(b) => b,
        Err(e) => {
            return Err(e);
        },
    };
    if verified {
        issue_token(key, account.id.unwrap())
    } else {
        Err(Error::WrongPassword)
    }
}

/// The request-scoped authorization decision: a request that carries no
/// bearer credential is rejected before any token machinery runs, and
/// one that does is admitted exactly when its token decodes and is
/// valid at `now`.  Only on admission does a handler ever see a
/// session.
pub fn auth(key: &TokenKey, authorization: Option<&String>, now: i64) -> (r: Result<Session, Error>)
    requires
        key.wf(),
    ensures
        authorization is None ==> r == Err::<Session, Error>(Error::CannotDecryptToken),
        authorization matches Some(t) ==> r == spec_verify_token(key@, t@, now),
{
    match authorization {
        None => Err(Error::CannotDecryptToken),
        Some(token) => crate::token::verify_token_at(key, token.as_str(), now),
    }
}

} // verus!
