use qna::error::Error;
use qna::moderation::{
    backoff_ms, classify_outcome, moderation_step, provider_error, AttemptOutcome, ModerationStep,
    RetryPolicy,
};

fn policy() -> RetryPolicy {
    RetryPolicy::default()
}

const SUCCESS_BODY: &str = "{\"content\":\"This is a shitty sentence\",\"bad_words_total\":1,\"bad_words_list\":[{\"original\":\"shitty\",\"word\":\"shitty\",\"deviations\":0,\"info\":2,\"replacedLen\":6}],\"censored_content\":\"This is a ****** sentence\"}";

fn response(status: u16, body: &str) -> AttemptOutcome {
    AttemptOutcome::Response { status, body: body.to_string() }
}

#[test]
fn server_faults_then_success_retries_then_succeeds() {
    let policy = policy();
    let mut calls: u32 = 0;
    // First call: the mock answers 503.
    calls += 1;
    let step = moderation_step(&policy, 0, &response(503, ""));
    assert!(matches!(step, ModerationStep::Retry { delay_ms: 1000 }));
    // Second call: the mock answers 503 again.
    calls += 1;
    let step = moderation_step(&policy, 1, &response(503, ""));
    assert!(matches!(step, ModerationStep::Retry { delay_ms: 2000 }));
    // Third call: the mock answers 200.
    calls += 1;
    let step = moderation_step(&policy, 2, &response(200, SUCCESS_BODY));
    match step {
        ModerationStep::Done(Ok(censored)) => {
            assert_eq!(censored, "This is a ****** sentence");
        }
        other => panic!("expected success, got {:?}", other),
    }
    assert_eq!(calls, 3);
}

#[test]
fn client_fault_is_not_retried() {
    let policy = policy();
    let mut calls: u32 = 0;
    calls += 1;
    let step = moderation_step(&policy, 0, &response(400, "{\"message\":\"no api key\"}"));
    match step {
        ModerationStep::Done(Err(Error::ClientError(e))) => {
            assert_eq!(e.status, 400);
            assert_eq!(e.message, "no api key");
        }
        other => panic!("expected a client fault, got {:?}", other),
    }
    assert_eq!(calls, 1);
}

#[test]
fn retries_exhausted_on_transport_faults() {
    let policy = policy();
    assert!(matches!(
        moderation_step(&policy, 0, &AttemptOutcome::Transport),
        ModerationStep::Retry { delay_ms: 1000 }
    ));
    assert!(matches!(
        moderation_step(&policy, 1, &AttemptOutcome::Transport),
        ModerationStep::Retry { delay_ms: 2000 }
    ));
    assert!(matches!(
        moderation_step(&policy, 2, &AttemptOutcome::Transport),
        ModerationStep::Retry { delay_ms: 4000 }
    ));
    let last = moderation_step(&policy, 3, &AttemptOutcome::Transport);
    assert!(matches!(
        last,
        ModerationStep::Done(Err(Error::MiddlewareReqwestAPIError))
    ));
}

#[test]
fn server_fault_after_exhaustion_keeps_status_and_message() {
    let policy = policy();
    let step = moderation_step(&policy, 3, &response(502, "{\"message\":\"upstream down\"}"));
    match step {
        ModerationStep::Done(Err(Error::ServerError(e))) => {
            assert_eq!(e.status, 502);
            assert_eq!(e.message, "upstream down");
        }
        other => panic!("expected a server fault, got {:?}", other),
    }
}

#[test]
fn throttling_is_a_terminal_client_fault() {
    let policy = policy();
    let mut calls: u32 = 0;
    calls += 1;
    let step = moderation_step(&policy, 0, &response(429, "{\"message\":\"slow down\"}"));
    match step {
        ModerationStep::Done(Err(Error::ClientError(e))) => {
            assert_eq!(e.status, 429);
            assert_eq!(e.message, "slow down");
        }
        other => panic!("expected a client fault, got {:?}", other),
    }
    assert_eq!(calls, 1);
}

#[test]
fn unexpected_success_schema_is_a_deserialization_error() {
    let r = classify_outcome(&response(200, "{\"unexpected\":true}"));
    assert!(matches!(r, Err(Error::ReqwestAPIError)));
    let r = classify_outcome(&response(200, "not json at all"));
    assert!(matches!(r, Err(Error::ReqwestAPIError)));
    // The whole schema is demanded, the word list included.
    let r = classify_outcome(&response(
        200,
        "{\"content\":\"a\",\"bad_words_total\":0,\"censored_content\":\"a\"}",
    ));
    assert!(matches!(r, Err(Error::ReqwestAPIError)));
}

#[test]
fn clean_text_passes_through() {
    let body = "{\"content\":\"this is a sentence\",\"bad_words_total\":0,\"bad_words_list\":[],\"censored_content\":\"this is a sentence\"}";
    let r = classify_outcome(&response(200, body));
    assert_eq!(r.unwrap(), "this is a sentence");
}

#[test]
fn informational_and_redirect_replies_are_server_faults() {
    let r = classify_outcome(&response(301, "{\"message\":\"moved\"}"));
    match r {
        Err(Error::ServerError(e)) => assert_eq!(e.status, 301),
        other => panic!("expected a server fault, got {:?}", other),
    }
}

#[test]
fn unreadable_failure_body_keeps_the_status() {
    let e = provider_error(500, "<html>oops</html>");
    assert_eq!(e.status, 500);
    assert_eq!(e.message, "");
}

#[test]
fn backoff_doubles_and_saturates() {
    assert_eq!(backoff_ms(1000, 0), 1000);
    assert_eq!(backoff_ms(1000, 1), 2000);
    assert_eq!(backoff_ms(1000, 2), 4000);
    assert_eq!(backoff_ms(u64::MAX, 1), u64::MAX);
    assert_eq!(backoff_ms(u64::MAX / 2 + 1, 1), u64::MAX);
    assert_eq!(backoff_ms(0, 7), 0);
}
