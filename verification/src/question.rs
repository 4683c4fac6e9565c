//! Questions, and the decisions the question handlers make once the
//! store and the moderation provider have answered.

use vstd::prelude::*;

use crate::error::Error;

verus! {

/// The identifier the store assigns to a question.
#[derive(Debug, Clone, Copy, PartialEq, Eq, Hash, Structural)]
pub struct QuestionId(pub i32);

impl From<i32> for QuestionId {
    fn from(value: i32) -> (r: Self) {
        QuestionId(value)
    }
}

impl vstd::std_specs::convert::FromSpecImpl<i32> for QuestionId {
    open spec fn obeys_from_spec() -> bool {
        true
    }

    open spec fn from_spec(v: i32) -> Self {
        QuestionId(v)
    }
}

impl From<Option<i32>> for QuestionId {
    fn from(value: Option<i32>) -> (r: Self) {
        match value {
            Some(v) => QuestionId(v),
            None => QuestionId(0),
        }
    }
}

impl vstd::std_specs::convert::FromSpecImpl<Option<i32>> for QuestionId {
    open spec fn obeys_from_spec() -> bool {
        true
    }

    open spec fn from_spec(v: Option<i32>) -> Self {
        match v {
            Some(x) => QuestionId(x),
            None => QuestionId(0),
        }
    }
}

impl From<QuestionId> for i32 {
    fn from(value: QuestionId) -> (r: Self) {
        value.0
    }
}

impl vstd::std_specs::convert::FromSpecImpl<QuestionId> for i32 {
    open spec fn obeys_from_spec() -> bool {
        true
    }

    open spec fn from_spec(v: QuestionId) -> Self {
        v.0
    }
}

/// A question as stored, with its identifier.
#[derive(Debug, Clone)]
pub struct Question {
    pub id: QuestionId,
    pub title: String,
    pub content: String,
    pub tags: Option<Vec<String>>,
}

/// A question as submitted, before the store assigns an identifier.
#[derive(Debug, Clone)]
pub struct NewQuestion {
    pub title: String,
    pub content: String,
    pub tags: Option<Vec<String>>,
}

/// What the add-question handler forwards to the store: the submitted
/// question with both its title and its content replaced by the
/// moderation provider's censored text, or the first moderation
/// failure.
pub fn add_question(
    new_question: NewQuestion,
    censored_title: Result<String, Error>,
    censored_content: Result<String, Error>,
) -> (r: Result<NewQuestion, Error>)
    ensures
        censored_title is Err ==> r == Err::<NewQuestion, Error>(censored_title->Err_0),
        censored_title is Ok && censored_content is Err ==> r == Err::<NewQuestion, Error>(
            censored_content->Err_0,
        ),
        censored_title is Ok && censored_content is Ok ==> (r matches Ok(q) && q.title
            == censored_title->Ok_0 && q.content == censored_content->Ok_0 && q.tags
            == new_question.tags),
{
    let title = match censored_title {
        Ok(t) => t,
        Err(e) => {
            return Err(e);
        },
    };
    let content = match censored_content {
        Ok(c) => c,
        Err(e) => {
            return Err(e);
        },
    };
    Ok(NewQuestion { title, content, tags: new_question.tags })
}

/// What the update-question handler forwards to the store.
///
/// A caller that does not own the question is turned away with
/// `Unauthorized` whatever else happened; otherwise the question is
/// updated with the censored title and content, or the first moderation
/// failure is reported.
pub fn update_question(
    question: Question,
    owner: bool,
    censored_title: Result<String, Error>,
    censored_content: Result<String, Error>,
) -> (r: Result<Question, Error>)
    ensures
        !owner ==> r == Err::<Question, Error>(Error::Unauthorized),
        owner && censored_title is Err ==> r == Err::<Question, Error>(censored_title->Err_0),
        owner && censored_title is Ok && censored_content is Err ==> r == Err::<Question, Error>(
            censored_content->Err_0,
        ),
        owner && censored_title is Ok && censored_content is Ok ==> (r matches Ok(q) && q.id
            == question.id && q.title == censored_title->Ok_0 && q.content
            == censored_content->Ok_0 && q.tags == question.tags),
{
    if !owner {
        return Err(Error::Unauthorized);
    }
    let title = match censored_title {
        Ok(t) => t,
        Err(e) => {
            return Err(e);
        },
    };
    let content = match censored_content {
        Ok(c) => c,
        Err(e) => {
            return Err(e);
        },
    };
    Ok(Question { id: question.id, title, content, tags: question.tags })
}

/// Whether the delete-question handler may proceed: only the owner of a
/// question may delete it.
pub fn delete_question(owner: bool) -> (r: Result<(), Error>)
    ensures
        owner ==> r == Ok::<(), Error>(()),
        !owner ==> r == Err::<(), Error>(Error::Unauthorized),
{
    if owner {
        Ok(())
    } else {
        Err(Error::Unauthorized)
    }
}

} // verus!
