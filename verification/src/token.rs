//! The session-token codec.
//!
//! A token is a PASETO v4.local sealing of the session claims: the
//! claims are rendered as a fixed-width text record, authenticated and
//! encrypted under the process-wide symmetric key, and validated
//! against the current time when presented.  The claims encoding and
//! the time validation are verified here; the authenticated encryption
//! is the pasetors crate's.

use vstd::prelude::*;

use crate::account::{session_active, AccountId, Session};
use crate::decimal::{
    all_digits, dec_rep, dec_value, lemma_dec_rep_digits, lemma_dec_rep_len,
    lemma_dec_value_of_rep, lemma_dec_value_zero_prefix, parse_i64, pow10, render_padded_u64,
    spec_parse_i64, zeros,
};
use crate::error::Error;

verus! {

/// How long an issued token stays valid, in seconds: one day.
pub const VALIDITY_WINDOW_SECS: i64 = 86400;

/// The process-wide symmetric key tokens are sealed with.  It is loaded
/// once at startup and never derived from anything request-controlled.
pub struct TokenKey {
    bytes: Vec<u8>,
}

impl View for TokenKey {
    type V = Seq<u8>;

    closed spec fn view(&self) -> Seq<u8> {
        self.bytes@
    }
}

impl TokenKey {
    /// The cipher demands exactly 32 key bytes.
    pub open spec fn wf(&self) -> bool {
        self@.len() == 32
    }

    /// Accept exactly a 32-byte key, as the cipher demands.
    pub fn from_bytes(bytes: Vec<u8>) -> (r: Option<TokenKey>)
        ensures
            bytes@.len() == 32 ==> (r matches Some(k) && k@ == bytes@ && k.wf()),
            bytes@.len() != 32 ==> r is None,
    {
        if bytes.len() == 32 {
            Some(TokenKey { bytes })
        } else {
            None
        }
    }
}

/// What pasetors' v4.local decryption recovers from a token under a
/// key: `None` when the token is rejected (malformed, tampered with, or
/// sealed under another key), otherwise the sealed message.
pub uninterp spec fn paseto_message(key: Seq<u8>, token: Seq<char>) -> Option<Seq<char>>;

/// Relies on `pasetors::version4::LocalToken::encrypt`: the returned
/// v4.local token decrypts, under the same key, to exactly the sealed
/// message.
#[verifier::external_body]
fn encrypt_message(key: &TokenKey, message: &str) -> (r: Result<String, Error>)
    requires
        key.wf(),
        message@.len() > 0,
    ensures
        match r {
            Ok(t) => paseto_message(key@, t@) == Some(message@),
            Err(e) => e == Error::CannotDecryptToken,
        },
{
    let sk = pasetors::keys::SymmetricKey::<pasetors::version4::V4>::from(key.bytes.as_slice())
        .map_err(|_| Error::CannotDecryptToken)?;
    pasetors::version4::LocalToken::encrypt(&sk, message.as_bytes(), None, None)
        .map_err(|_| Error::CannotDecryptToken)
}

/// Relies on `pasetors::token::UntrustedToken::try_from` and
/// `pasetors::version4::LocalToken::decrypt`: both are deterministic in
/// the key and the token text, and decryption yields the sealed
/// message exactly when the token is authentic under the key.
#[verifier::external_body]
fn decrypt_message(key: &TokenKey, token: &str) -> (r: Result<String, Error>)
    requires
        key.wf(),
    ensures
        match r {
            Ok(p) => paseto_message(key@, token@) == Some(p@),
            Err(e) => paseto_message(key@, token@) is None && e == Error::CannotDecryptToken,
        },
{
    let sk = pasetors::keys::SymmetricKey::<pasetors::version4::V4>::from(key.bytes.as_slice())
        .map_err(|_| Error::CannotDecryptToken)?;
    let untrusted = pasetors::token::UntrustedToken::<pasetors::token::Local, pasetors::version4::V4>::try_from(token)
        .map_err(|_| Error::CannotDecryptToken)?;
    let trusted = pasetors::version4::LocalToken::decrypt(&sk, &untrusted, None, None)
        .map_err(|_| Error::CannotDecryptToken)?;
    Ok(trusted.payload().to_string())
}

/// Relies on `chrono::Utc::now`: the current time in unix seconds.
#[verifier::external_body]
fn now_unix() -> (r: i64) {
    chrono::Utc::now().timestamp()
}

/// One claim value on the wire: a sign followed by nineteen zero-padded
/// decimal digits.
pub open spec fn field_rep(v: int) -> Seq<char> {
    let mag = if v < 0 {
        -v
    } else {
        v
    };
    let sign = if v < 0 {
        seq!['-']
    } else {
        seq!['+']
    };
    sign + zeros((19 - dec_rep(mag).len()) as nat) + dec_rep(mag)
}

/// The claims record a session is sealed as: account identifier,
/// not-before time, expiry time, each in one fixed-width field.
pub open spec fn claims_rep(s: Session) -> Seq<char> {
    field_rep(s.account_id.0 as int) + field_rep(s.nbf as int) + field_rep(s.exp as int)
}

/// What decoding a claims record yields: three fields that parse as
/// numbers, the first fitting an account identifier.
pub open spec fn spec_decode_claims(msg: Seq<char>) -> Option<Session> {
    if msg.len() != 60 {
        None
    } else {
        match (spec_parse_i64(msg.subrange(0, 20)), spec_parse_i64(msg.subrange(20, 40)),
        spec_parse_i64(msg.subrange(40, 60))) {
            (Some(id), Some(nbf), Some(exp)) => {
                if i32::MIN <= id <= i32::MAX {
                    Some(Session { account_id: AccountId(id as i32), nbf, exp })
                } else {
                    None
                }
            },
            _ => None,
        }
    }
}

/// A claim field is twenty characters and parses back to its value.
pub proof fn lemma_field_rep(v: i64)
    ensures
        field_rep(v as int).len() == 20,
        spec_parse_i64(field_rep(v as int)) == Some(v),
{
    let mag: int = if v < 0 {
        -(v as int)
    } else {
        v as int
    };
    lemma_pow10_19();
    lemma_dec_rep_digits(mag);
    lemma_dec_rep_len(mag, 19);
    lemma_dec_value_of_rep(mag);
    let pad = (19 - dec_rep(mag).len()) as nat;
    lemma_dec_value_zero_prefix(pad, dec_rep(mag));
    let body = zeros(pad) + dec_rep(mag);
    assert(all_digits(body));
    assert(dec_value(body) == mag);
    let s = field_rep(v as int);
    assert(s.skip(1) =~= body);
    assert(s[0] == (if v < 0 {
        '-'
    } else {
        '+'
    }));
}

/// `10^19` written out, and it bounds every magnitude an `i64` can
/// have.
pub proof fn lemma_pow10_19()
    ensures
        pow10(19) == 10_000_000_000_000_000_000,
{
    reveal_with_fuel(pow10, 20);
}

/// Render one claim value as its fixed-width field.
fn render_claim_field(v: i64) -> (r: String)
    ensures
        r@ == field_rep(v as int),
{
    proof {
        lemma_pow10_19();
    }
    let neg: bool = v < 0;
    let mag: u64 = if v >= 0 {
        v as u64
    } else {
        (-(v as i128)) as u64
    };
    proof {
        assert(mag as int == if v < 0 {
            -(v as int)
        } else {
            v as int
        });
    }
    let mut s = String::from_str(if neg {
        "-"
    } else {
        "+"
    });
    proof {
        reveal_strlit("-");
        reveal_strlit("+");
    }
    let body = render_padded_u64(mag, 19);
    s.append(body.as_str());
    proof {
        assert(s@ =~= field_rep(v as int));
    }
    s
}

/// Render a session as its claims record.
pub fn encode_claims(s: &Session) -> (r: String)
    ensures
        r@ == claims_rep(*s),
        r@.len() == 60,
{
    let mut m = render_claim_field(s.account_id.0 as i64);
    let f2 = render_claim_field(s.nbf);
    let f3 = render_claim_field(s.exp);
    m.append(f2.as_str());
    m.append(f3.as_str());
    proof {
        lemma_field_rep(s.account_id.0 as i64);
        lemma_field_rep(s.nbf);
        lemma_field_rep(s.exp);
        assert(m@ =~= claims_rep(*s));
    }
    m
}

/// Decode a claims record back into a session.
pub fn decode_claims(msg: &str) -> (r: Option<Session>)
    ensures
        r == spec_decode_claims(msg@),
{
    let len = msg.unicode_len();
    if len != 60 {
        return None;
    }
    let f1 = msg.substring_char(0, 20);
    let f2 = msg.substring_char(20, 40);
    let f3 = msg.substring_char(40, 60);
    match (parse_i64(f1), parse_i64(f2), parse_i64(f3)) {
        (Some(id), Some(nbf), Some(exp)) => {
            if i32::MIN as i64 <= id && id <= i32::MAX as i64 {
                Some(Session { account_id: AccountId(id as i32), nbf, exp })
            } else {
                None
            }
        },
        _ => None,
    }
}

/// Decoding inverts encoding: a claims record decodes to exactly the
/// session it was rendered from.
pub proof fn lemma_claims_round_trip(s: Session)
    ensures
        spec_decode_claims(claims_rep(s)) == Some(s),
{
    lemma_field_rep(s.account_id.0 as i64);
    lemma_field_rep(s.nbf);
    lemma_field_rep(s.exp);
    let m = claims_rep(s);
    assert(m.subrange(0, 20) =~= field_rep(s.account_id.0 as int));
    assert(m.subrange(20, 40) =~= field_rep(s.nbf as int));
    assert(m.subrange(40, 60) =~= field_rep(s.exp as int));
}

/// The session a token issued at `now` carries: valid from `now` for
/// the validity window.
pub open spec fn issued_session(account_id: AccountId, now: i64) -> Session {
    Session { account_id, nbf: now, exp: (now + VALIDITY_WINDOW_SECS) as i64 }
}

/// Issue a token for `account_id` as of time `now`: seal the claims
/// record of a session valid from `now` for the validity window.
pub fn issue_token_at(key: &TokenKey, account_id: AccountId, now: i64) -> (r: Result<String, Error>)
    requires
        key.wf(),
        now + VALIDITY_WINDOW_SECS <= i64::MAX,
    ensures
        r matches Ok(t) ==> paseto_message(key@, t@) == Some(
            claims_rep(issued_session(account_id, now)),
        ),
        r is Err ==> r == Err::<String, Error>(Error::CannotDecryptToken),
{
    let session = Session { account_id, nbf: now, exp: now + VALIDITY_WINDOW_SECS };
    let message = encode_claims(&session);
    encrypt_message(key, message.as_str())
}

/// Issue a token for `account_id` as of the current time.
pub fn issue_token(key: &TokenKey, account_id: AccountId) -> (r: Result<String, Error>)
    requires
        key.wf(),
    ensures
        r matches Ok(t) ==> exists|n: i64|
            paseto_message(key@, t@) == Some(claims_rep(#[trigger] issued_session(account_id, n)))
                && n + VALIDITY_WINDOW_SECS <= i64::MAX,
        r is Err ==> r == Err::<String, Error>(Error::CannotDecryptToken),
{
    let now = now_unix();
    if now > i64::MAX - VALIDITY_WINDOW_SECS {
        return Err(Error::CannotDecryptToken);
    }
    let r = issue_token_at(key, account_id, now);
    proof {
        if r is Ok {
            assert(paseto_message(key@, r->Ok_0@) == Some(
                claims_rep(issued_session(account_id, now)),
            ));
        }
    }
    r
}

/// What presenting a token at time `now` yields: the sealed session,
/// exactly when the token is authentic, its claims record decodes, and
/// `now` lies in the session's validity window; any other failure is
/// the one undifferentiated `CannotDecryptToken`.
pub open spec fn spec_verify_token(key: Seq<u8>, token: Seq<char>, now: i64) -> Result<
    Session,
    Error,
> {
    match paseto_message(key, token) {
        Option::None => Err(Error::CannotDecryptToken),
        Option::Some(msg) => match spec_decode_claims(msg) {
            Option::None => Err(Error::CannotDecryptToken),
            Option::Some(s) => if session_active(s, now as int) {
                Ok(s)
            } else {
                Err(Error::CannotDecryptToken)
            },
        },
    }
}

/// Decode and validate a presented token as of time `now`.
pub fn verify_token_at(key: &TokenKey, token: &str, now: i64) -> (r: Result<Session, Error>)
    requires
        key.wf(),
    ensures
        r == spec_verify_token(key@, token@, now),
{
    let payload = match decrypt_message(key, token) {
        Ok(p) => p,
        Err(e) => {
            return Err(e);
        },
    };
    let session = match decode_claims(payload.as_str()) {
        Some(s) => s,
        None => {
            return Err(Error::CannotDecryptToken);
        },
    };
    if session.nbf <= now && now < session.exp {
        Ok(session)
    } else {
        Err(Error::CannotDecryptToken)
    }
}

/// Decode and validate a presented token as of the current time.
pub fn verify_token(key: &TokenKey, token: &str) -> (r: Result<Session, Error>)
    requires
        key.wf(),
    ensures
        r matches Ok(s) ==> exists|now: i64|
            #[trigger] spec_verify_token(key@, token@, now) == Ok::<Session, Error>(s),
        r is Err ==> r == Err::<Session, Error>(Error::CannotDecryptToken),
{
    let now = now_unix();
    let r = verify_token_at(key, token, now);
    proof {
        if r is Ok {
            assert(spec_verify_token(key@, token@, now) == Ok::<Session, Error>(r->Ok_0));
        }
    }
    r
}

/// The token lifecycle law: a token sealed for `account_id` at time
/// `issued_at` is accepted at exactly the times inside its validity
/// window, and yields the session it was issued for; at every other
/// time — before the not-before instant or at and after expiry — it is
/// rejected as `CannotDecryptToken`.
pub proof fn lemma_token_round_trip(
    key: Seq<u8>,
    token: Seq<char>,
    account_id: AccountId,
    issued_at: i64,
    now: i64,
)
    requires
        issued_at + VALIDITY_WINDOW_SECS <= i64::MAX,
        paseto_message(key, token) == Some(claims_rep(issued_session(account_id, issued_at))),
    ensures
        issued_at <= now < issued_at + VALIDITY_WINDOW_SECS ==> spec_verify_token(key, token, now)
            == Ok::<Session, Error>(issued_session(account_id, issued_at)),
        !(issued_at <= now < issued_at + VALIDITY_WINDOW_SECS) ==> spec_verify_token(
            key,
            token,
            now,
        ) == Err::<Session, Error>(Error::CannotDecryptToken),
{
    lemma_claims_round_trip(issued_session(account_id, issued_at));
}

} // verus!
