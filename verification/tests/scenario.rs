//! The registration → login → protected-write flow, end to end, with
//! the store and the moderation transport played by the test.

use qna::account::{Account, AccountId};
use qna::answer::{add_answer, NewAnswer};
use qna::authentication::{auth, login, register};
use qna::error::{error_response, Error, DUPLICATE_KEY};
use qna::moderation::{moderation_step, AttemptOutcome, ModerationStep, RetryPolicy};
use qna::question::{add_question, delete_question, update_question, NewQuestion, Question,
    QuestionId};
use qna::token::TokenKey;

fn test_key() -> TokenKey {
    TokenKey::from_bytes(b"0123456789abcdef0123456789abcdef".to_vec()).unwrap()
}

/// The account store, as the surrounding service would run it: unique
/// emails, identifiers assigned in insertion order.
struct Accounts {
    rows: Vec<Account>,
}

impl Accounts {
    fn new() -> Accounts {
        Accounts { rows: Vec::new() }
    }

    fn insert(&mut self, account: Account) -> Result<(), Error> {
        if self.rows.iter().any(|a| a.email == account.email) {
            return Err(Error::DataBaseQueryError(Some(DUPLICATE_KEY)));
        }
        let id = AccountId(self.rows.len() as i32 + 1);
        self.rows.push(Account { id: Some(id), ..account });
        Ok(())
    }

    fn fetch(&self, email: &str) -> Option<Account> {
        self.rows.iter().find(|a| a.email == email).cloned()
    }
}

/// One moderation exchange, played against a mock provider that
/// answers from a script of outcomes.
fn censor(script: &[AttemptOutcome], calls: &mut usize) -> Result<String, Error> {
    let policy = RetryPolicy::default();
    let mut attempt: u32 = 0;
    loop {
        let outcome = &script[*calls];
        *calls += 1;
        match moderation_step(&policy, attempt, outcome) {
            ModerationStep::Retry { delay_ms: _ } => attempt += 1,
            ModerationStep::Done(result) => return result,
        }
    }
}

fn success_outcome(content: &str, censored: &str) -> AttemptOutcome {
    let body = format!(
        "{}\"content\":\"{}\",\"bad_words_total\":1,\"bad_words_list\":[],\"censored_content\":\"{}\"{}",
        "{", content, censored, "}"
    );
    AttemptOutcome::Response { status: 200, body }
}

#[test]
fn register_login_and_submit_censored_question() {
    let key = test_key();
    let mut store = Accounts::new();

    // Registration succeeds once ...
    let submitted = Account {
        id: None,
        email: "a@x.com".to_string(),
        password: "secret1".to_string(),
    };
    let prepared = register(submitted.clone()).unwrap();
    assert!(store.insert(prepared).is_ok());

    // ... and the same email again is a 422 "already exists".
    let again = Account {
        id: None,
        email: "a@x.com".to_string(),
        password: "other".to_string(),
    };
    let prepared = register(again).unwrap();
    let err = store.insert(prepared).unwrap_err();
    let (status, body) = error_response(&err);
    assert_eq!(status, 422);
    assert_eq!(body, "Account already exists");

    // A wrong password is a 401.
    let wrong = Account {
        id: None,
        email: "a@x.com".to_string(),
        password: "wrong".to_string(),
    };
    let err = login(&key, store.fetch("a@x.com"), &wrong).unwrap_err();
    assert_eq!(error_response(&err).0, 401);

    // An unknown email is the same 401.
    let err = login(&key, store.fetch("b@x.com"), &wrong).unwrap_err();
    assert_eq!(error_response(&err).0, 401);

    // The right password yields a token that authenticates a request.
    let token = login(&key, store.fetch("a@x.com"), &submitted).unwrap();
    let now = chrono::Utc::now().timestamp();
    let session = auth(&key, Some(&token), now).unwrap();
    assert_eq!(session.account_id, AccountId(1));

    // The submitted question goes through moderation; the persisted
    // content is the provider's censored text.  The provider fails
    // twice before answering.
    let mut calls: usize = 0;
    let script = vec![
        AttemptOutcome::Response { status: 503, body: String::new() },
        AttemptOutcome::Transport,
        success_outcome("A shitty title", "A ****** title"),
        AttemptOutcome::Response { status: 503, body: String::new() },
        success_outcome("This is a shitty sentence", "This is a ****** sentence"),
    ];
    let question = NewQuestion {
        title: "A shitty title".to_string(),
        content: "This is a shitty sentence".to_string(),
        tags: None,
    };
    let censored_title = censor(&script, &mut calls);
    let censored_content = censor(&script, &mut calls);
    assert_eq!(calls, 5);
    let persisted = add_question(question, censored_title, censored_content).unwrap();
    assert_eq!(persisted.title, "A ****** title");
    assert_eq!(persisted.content, "This is a ****** sentence");
}

#[test]
fn no_session_no_handler() {
    // A request without the Authorization header is rejected with a
    // 401 before any handler decision runs.
    let key = test_key();
    let rejection = auth(&key, None, 0).unwrap_err();
    assert_eq!(error_response(&rejection).0, 401);
}

#[test]
fn owner_checks_guard_update_and_delete() {
    // A structurally valid session for account A does not let it touch
    // account B's question: the store's ownership answer is negative
    // and the handler turns the request away with a 401.
    let question = Question {
        id: QuestionId(4),
        title: "t".to_string(),
        content: "c".to_string(),
        tags: None,
    };
    let err = update_question(
        question,
        false,
        Ok("t".to_string()),
        Ok("c".to_string()),
    )
    .unwrap_err();
    assert!(matches!(err, Error::Unauthorized));
    assert_eq!(error_response(&err).0, 401);

    let err = delete_question(false).unwrap_err();
    assert!(matches!(err, Error::Unauthorized));

    assert!(delete_question(true).is_ok());
}

#[test]
fn moderated_answer_keeps_its_question() {
    let answer = NewAnswer {
        content: "This is a shitty sentence".to_string(),
        question_id: QuestionId(9),
    };
    let persisted = add_answer(answer, Ok("This is a ****** sentence".to_string())).unwrap();
    assert_eq!(persisted.content, "This is a ****** sentence");
    assert_eq!(persisted.question_id, QuestionId(9));

    let failed = add_answer(
        NewAnswer { content: "x".to_string(), question_id: QuestionId(9) },
        Err(Error::ReqwestAPIError),
    );
    assert!(matches!(failed, Err(Error::ReqwestAPIError)));
}

#[test]
fn identifier_conversions() {
    assert_eq!(QuestionId::from(7), QuestionId(7));
    assert_eq!(QuestionId::from(Some(3)), QuestionId(3));
    assert_eq!(QuestionId::from(None::<i32>), QuestionId(0));
    assert_eq!(i32::from(QuestionId(9)), 9);
    assert_eq!(qna::answer::AnswerId::from(5), qna::answer::AnswerId(5));
    assert_eq!(i32::from(qna::answer::AnswerId(4)), 4);
}
