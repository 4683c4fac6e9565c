//! Accounts and the sessions that authenticate them.

use vstd::prelude::*;

verus! {

/// The identifier the store assigns to an account.
#[derive(Debug, Clone, Copy, PartialEq, Eq, Hash, Structural)]
pub struct AccountId(pub i32);

/// An account as exchanged with the store.
///
/// The identifier is absent before the store has assigned one.  After
/// registration the `password` field holds the encoded hash, never the
/// raw password.
#[derive(Debug, Clone)]
pub struct Account {
    pub id: Option<AccountId>,
    pub email: String,
    pub password: String,
}

/// The claims identifying one authenticated session: the account, the
/// time the token becomes valid, and the time it expires.
#[derive(Debug, Clone, Copy, PartialEq, Eq, Structural)]
pub struct Session {
    pub account_id: AccountId,
    pub nbf: i64,
    pub exp: i64,
}

/// A session is accepted exactly when the current time lies inside its
/// validity window.
pub open spec fn session_active(s: Session, now: int) -> bool {
    s.nbf <= now < s.exp
}

} // verus!
