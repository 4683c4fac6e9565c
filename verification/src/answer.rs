//! Answers, and the decision the add-answer handler makes once the
//! moderation provider has answered.

use vstd::prelude::*;

use crate::error::Error;
use crate::question::QuestionId;

verus! {

/// The identifier the store assigns to an answer.
#[derive(Debug, Clone, Copy, PartialEq, Eq, Hash, Structural)]
pub struct AnswerId(pub i32);

impl From<i32> for AnswerId {
    fn from(value: i32) -> (r: Self) {
        AnswerId(value)
    }
}

impl vstd::std_specs::convert::FromSpecImpl<i32> for AnswerId {
    open spec fn obeys_from_spec() -> bool {
        true
    }

    open spec fn from_spec(v: i32) -> Self {
        AnswerId(v)
    }
}

impl From<AnswerId> for i32 {
    fn from(value: AnswerId) -> (r: Self) {
        value.0
    }
}

impl vstd::std_specs::convert::FromSpecImpl<AnswerId> for i32 {
    open spec fn obeys_from_spec() -> bool {
        true
    }

    open spec fn from_spec(v: AnswerId) -> Self {
        v.0
    }
}

/// An answer as stored, with its identifier.
#[derive(Debug, Clone)]
pub struct Answer {
    pub id: AnswerId,
    pub content: String,
    pub question_id: QuestionId,
}

/// An answer as submitted, before the store assigns an identifier.
#[derive(Debug, Clone)]
pub struct NewAnswer {
    pub content: String,
    pub question_id: QuestionId,
}

/// What the add-answer handler forwards to the store: the submitted
/// answer with its content replaced by the moderation provider's
/// censored text, or the moderation failure.
pub fn add_answer(new_answer: NewAnswer, censored_content: Result<String, Error>) -> (r: Result<
    NewAnswer,
    Error,
>)
    ensures
        censored_content is Err ==> r == Err::<NewAnswer, Error>(censored_content->Err_0),
        censored_content is Ok ==> (r matches Ok(a) && a.content == censored_content->Ok_0
            && a.question_id == new_answer.question_id),
{
    match censored_content {
        Ok(content) => Ok(NewAnswer { content, question_id: new_answer.question_id }),
        Err(e) => Err(e),
    }
}

} // verus!
