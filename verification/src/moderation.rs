//! The resilient content-moderation client's decision core.
//!
//! The HTTP transport is an external collaborator: it performs one
//! attempt and reports what it came to.  Everything the client decides
//! — which outcomes are transient, how long to back off, when to give
//! up, and how a final outcome is classified — is verified here.
//! Content-mutating handlers pass submitted text through this client
//! and persist the provider's censored text verbatim.

use vstd::prelude::*;

use crate::error::{APILayerError, Error};

verus! {

/// The reply of the moderation provider on success, as far as the
/// service reads it; the provider's word list is checked for presence
/// but not kept.
#[derive(Debug, Clone)]
pub struct BadWordsReply {
    pub content: String,
    pub bad_words_total: i64,
    pub censored_content: String,
}

/// A reply body of the provider on failure: it carries one message.
#[derive(Debug, Clone)]
pub struct APIResponse {
    message: String,
}

impl View for APIResponse {
    type V = Seq<char>;

    closed spec fn view(&self) -> Seq<char> {
        self.message@
    }
}

impl APIResponse {
    /// Wrap a provider message.
    pub fn new(message: String) -> (r: APIResponse)
        ensures
            r@ == message@,
    {
        APIResponse { message }
    }

    /// The provider's message.
    pub fn into_message(self) -> (r: String)
        ensures
            r@ == self@,
    {
        self.message
    }
}

/// What `serde_json` extracts from a provider success body: the
/// `content`, `bad_words_total` and `censored_content` fields, provided
/// the body is well-formed JSON that also carries a `bad_words_list`
/// array.
pub uninterp spec fn bad_words_reply_of(body: Seq<char>) -> Option<(Seq<char>, i64, Seq<char>)>;

/// What `serde_json` extracts from a provider failure body: its
/// `message` field.
pub uninterp spec fn api_message_of(body: Seq<char>) -> Option<Seq<char>>;

/// Relies on `serde_json::from_str` and `serde_json::Value`'s
/// accessors: deterministic extraction of the provider's success
/// schema.
#[verifier::external_body]
fn parse_bad_words_body(body: &str) -> (r: Option<BadWordsReply>)
    ensures
        match r {
            Some(rep) => bad_words_reply_of(body@) == Some(
                (rep.content@, rep.bad_words_total, rep.censored_content@),
            ),
            None => bad_words_reply_of(body@) is None,
        },
{
    let v: serde_json::Value = serde_json::from_str(body).ok()?;
    let content = v.get("content")?.as_str()?.to_string();
    let bad_words_total = v.get("bad_words_total")?.as_i64()?;
    v.get("bad_words_list")?.as_array()?;
    let censored_content = v.get("censored_content")?.as_str()?.to_string();
    Some(BadWordsReply { content, bad_words_total, censored_content })
}

/// Relies on `serde_json::from_str` and `serde_json::Value`'s
/// accessors: deterministic extraction of the provider's failure
/// schema.
#[verifier::external_body]
fn parse_api_response(body: &str) -> (r: Option<APIResponse>)
    ensures
        match r {
            Some(resp) => api_message_of(body@) == Some(resp@),
            None => api_message_of(body@) is None,
        },
{
    let v: serde_json::Value = serde_json::from_str(body).ok()?;
    let message = v.get("message")?.as_str()?.to_string();
    Some(APIResponse { message })
}

/// The message recorded for a failing reply: what its body carried, or
/// nothing when the body was unreadable.
pub open spec fn provider_message(body: Seq<char>) -> Seq<char> {
    match api_message_of(body) {
        Some(m) => m,
        None => Seq::<char>::empty(),
    }
}

/// The error recorded for a failing provider reply: the status it
/// answered with and the message parsed from its body.
pub fn provider_error(status: u16, body: &str) -> (r: APILayerError)
    ensures
        r.status == status,
        r.message@ == provider_message(body@),
{
    match parse_api_response(body) {
        Some(resp) => APILayerError { status, message: resp.into_message() },
        None => APILayerError { status, message: String::new() },
    }
}

/// The bounded retry policy of the moderation client.
#[derive(Debug, Clone, Copy, PartialEq, Eq, Structural)]
pub struct RetryPolicy {
    /// How many retries may follow the first attempt.
    pub max_retries: u32,
    /// The delay before the first retry, in milliseconds.
    pub base_delay_ms: u64,
}

impl Default for RetryPolicy {
    /// The policy the service runs with: at most three retries,
    /// doubling from one second.
    fn default() -> (r: Self)
        ensures
            r.max_retries == 3,
            r.base_delay_ms == 1000,
    {
        RetryPolicy { max_retries: 3, base_delay_ms: 1000 }
    }
}

/// What one attempt against the provider came to: a transport-level
/// failure (connection refused, timeout, unresolvable name), or an HTTP
/// reply with its status and body.
#[derive(Debug, Clone)]
pub enum AttemptOutcome {
    Transport,
    Response { status: u16, body: String },
}

/// Whether an outcome may be cured by retrying: a transport failure or
/// a server-side error.  Any reply with a client-error status — the
/// request itself was rejected — is terminal; retrying would not help.
pub open spec fn is_transient(o: &AttemptOutcome) -> bool {
    match o {
        AttemptOutcome::Transport => true,
        AttemptOutcome::Response { status, .. } => 500 <= *status <= 599,
    }
}

/// `2^k`.
pub open spec fn pow2(k: nat) -> int
    decreases k,
{
    if k == 0 {
        1
    } else {
        2 * pow2((k - 1) as nat)
    }
}

/// The delay before the retry that follows attempt number `attempt`:
/// the base delay doubled once per attempt already made, saturating.
pub open spec fn spec_backoff_ms(base: u64, attempt: u32) -> int {
    if base * pow2(attempt as nat) > u64::MAX {
        u64::MAX as int
    } else {
        base * pow2(attempt as nat)
    }
}

/// Compute the backoff delay.
pub fn backoff_ms(base: u64, attempt: u32) -> (r: u64)
    ensures
        r == spec_backoff_ms(base, attempt),
{
    let mut k: u32 = 0;
    let mut d: u64 = base;
    while k < attempt
        invariant
            k <= attempt,
            base * pow2(k as nat) <= u64::MAX ==> d == base * pow2(k as nat),
            base * pow2(k as nat) > u64::MAX ==> d == u64::MAX,
        decreases attempt - k,
    {
        proof {
            assert(pow2((k + 1) as nat) == 2 * pow2(k as nat));
            assert(pow2(k as nat) >= 1) by {
                lemma_pow2_pos(k as nat);
            }
            assert(base * pow2((k + 1) as nat) == 2 * (base * pow2(k as nat)))
                by (nonlinear_arith)
                requires
                    pow2((k + 1) as nat) == 2 * pow2(k as nat),
            ;
        }
        if d > u64::MAX / 2 {
            proof {
                assert(base * pow2((k + 1) as nat) > u64::MAX);
            }
            d = u64::MAX;
        } else {
            d = d * 2;
        }
        k = k + 1;
    }
    d
}

/// Doubling never reaches zero.
pub proof fn lemma_pow2_pos(k: nat)
    ensures
        pow2(k) >= 1,
    decreases k,
{
    if k > 0 {
        lemma_pow2_pos((k - 1) as nat);
    }
}

/// How a final (no longer retried) outcome is classified.
///
/// A success body that does not match the provider's schema is a
/// deserialization failure, distinct from the provider-reported ones; a
/// client-side rejection and a server-side failure each carry the
/// provider's status and message.
pub open spec fn spec_classified(o: &AttemptOutcome, res: Result<String, Error>) -> bool {
    match o {
        AttemptOutcome::Transport => res == Err::<String, Error>(Error::MiddlewareReqwestAPIError),
        AttemptOutcome::Response { status, body } => {
            if 200 <= *status <= 299 {
                match bad_words_reply_of(body@) {
                    Some(t) => res matches Ok(c) && c@ == t.2,
                    None => res == Err::<String, Error>(Error::ReqwestAPIError),
                }
            } else if 400 <= *status <= 499 {
                res matches Err(e) && e matches Error::ClientError(a) && a.status == *status
                    && a.message@ == provider_message(body@)
            } else {
                res matches Err(e) && e matches Error::ServerError(a) && a.status == *status
                    && a.message@ == provider_message(body@)
            }
        },
    }
}

/// Classify a final outcome: the censored text on a parseable success,
/// an error otherwise.
pub fn classify_outcome(o: &AttemptOutcome) -> (res: Result<String, Error>)
    ensures
        spec_classified(o, res),
{
    match o {
        AttemptOutcome::Transport => Err(Error::MiddlewareReqwestAPIError),
        AttemptOutcome::Response { status, body } => {
            if 200 <= *status && *status <= 299 {
                match parse_bad_words_body(body.as_str()) {
                    Some(rep) => Ok(rep.censored_content),
                    None => Err(Error::ReqwestAPIError),
                }
            } else if 400 <= *status && *status <= 499 {
                Err(Error::ClientError(provider_error(*status, body.as_str())))
            } else {
                Err(Error::ServerError(provider_error(*status, body.as_str())))
            }
        },
    }
}

/// The next move of the moderation client.
#[derive(Debug)]
pub enum ModerationStep {
    /// Try again after this many milliseconds.
    Retry { delay_ms: u64 },
    /// Stop, with the client's result.
    Done(Result<String, Error>),
}

/// Decide the next move after attempt number `attempt` (counting from
/// zero) came to `outcome`: retry with exponential backoff exactly
/// while the outcome is transient and retries remain, otherwise stop
/// with the outcome's classification.
pub fn moderation_step(policy: &RetryPolicy, attempt: u32, outcome: &AttemptOutcome) -> (r:
    ModerationStep)
    ensures
        is_transient(outcome) && attempt < policy.max_retries ==> (r matches ModerationStep::Retry {
            delay_ms,
        } && delay_ms == spec_backoff_ms(policy.base_delay_ms, attempt)),
        !(is_transient(outcome) && attempt < policy.max_retries) ==> (r
            matches ModerationStep::Done(res) && spec_classified(outcome, res)),
{
    let transient: bool = match outcome {
        AttemptOutcome::Transport => true,
        AttemptOutcome::Response { status, .. } => *status >= 500 && *status <= 599,
    };
    if transient && attempt < policy.max_retries {
        ModerationStep::Retry { delay_ms: backoff_ms(policy.base_delay_ms, attempt) }
    } else {
        ModerationStep::Done(classify_outcome(outcome))
    }
}

} // verus!
