//! What the handlers share: their error with its HTTP status, the checks
//! on what came in, and the turn from a data access result to a response.

use crate::identifier::{is_uuid, parse_uuid};
use crate::models::{
    outcome_view, Answer, AnswerId, AnswerView, DBError, DBErrorView, Question, QuestionId,
    QuestionView,
};
use vstd::prelude::*;

verus! {

/// The two ways a request can fail once it has reached a handler.
#[derive(Clone, Debug, PartialEq, Eq)]
pub enum HandlerError {
    /// The request itself is at fault: a required field is empty, or an
    /// identifier is no UUID.
    BadRequest(String),
    /// Data access failed.
    InternalError(String),
}

pub enum HandlerErrorView {
    BadRequest(Seq<char>),
    InternalError(Seq<char>),
}

impl View for HandlerError {
    type V = HandlerErrorView;

    open spec fn view(&self) -> HandlerErrorView {
        match self {
            HandlerError::BadRequest(message) => HandlerErrorView::BadRequest(message@),
            HandlerError::InternalError(message) => HandlerErrorView::InternalError(message@),
        }
    }
}

impl DeepView for HandlerError {
    type V = HandlerErrorView;

    open spec fn deep_view(&self) -> HandlerErrorView {
        self@
    }
}

impl HandlerErrorView {
    /// The HTTP status that goes out with the error.
    pub open spec fn status(self) -> u16 {
        match self {
            HandlerErrorView::BadRequest(_) => 400,
            HandlerErrorView::InternalError(_) => 500,
        }
    }

    /// The text that goes out as the body.
    pub open spec fn message(self) -> Seq<char> {
        match self {
            HandlerErrorView::BadRequest(message) => message,
            HandlerErrorView::InternalError(message) => message,
        }
    }
}

impl HandlerError {
    /// The HTTP status that goes out with the error.
    pub fn status_code(&self) -> (code: u16)
        ensures
            code == self@.status(),
    {
        match self {
            HandlerError::BadRequest(_) => 400,
            HandlerError::InternalError(_) => 500,
        }
    }

    /// The text that goes out as the body.
    pub fn into_message(self) -> (message: String)
        ensures
            message@ == self@.message(),
    {
        match self {
            HandlerError::BadRequest(message) => message,
            HandlerError::InternalError(message) => message,
        }
    }
}

/// The verdict on a new question: both fields are required, the title
/// first.
pub open spec fn question_verdict(question: QuestionView) -> Result<(), HandlerErrorView> {
    if question.title.len() == 0 {
        Err(HandlerErrorView::BadRequest("Title is required"@))
    } else if question.description.len() == 0 {
        Err(HandlerErrorView::BadRequest("Description is required"@))
    } else {
        Ok(())
    }
}

/// The verdict on an identifier that is required: it must be there, and
/// it must be in UUID format.
pub open spec fn identifier_verdict(
    text: Seq<char>,
    missing: Seq<char>,
    malformed: Seq<char>,
) -> Result<(), HandlerErrorView> {
    if text.len() == 0 {
        Err(HandlerErrorView::BadRequest(missing))
    } else if !is_uuid(text) {
        Err(HandlerErrorView::BadRequest(malformed))
    } else {
        Ok(())
    }
}

/// The verdict on the identifier of a question.
pub open spec fn question_id_verdict(question_uuid: Seq<char>) -> Result<(), HandlerErrorView> {
    identifier_verdict(question_uuid, "Question UUID is required"@, "Invalid question UUID"@)
}

/// The verdict on the identifier of an answer.
pub open spec fn answer_id_verdict(answer_uuid: Seq<char>) -> Result<(), HandlerErrorView> {
    identifier_verdict(answer_uuid, "Answer UUID is required"@, "Invalid answer UUID"@)
}

/// The verdict on a new answer: the content is required, and the question
/// must be named by a UUID.
pub open spec fn answer_verdict(answer: AnswerView) -> Result<(), HandlerErrorView> {
    if answer.content.len() == 0 {
        Err(HandlerErrorView::BadRequest("Content is required"@))
    } else if !is_uuid(answer.question_uuid) {
        Err(HandlerErrorView::BadRequest("Invalid question UUID"@))
    } else {
        Ok(())
    }
}

/// What goes out for each result of data access: the payload as it is, and
/// every failure as an internal error that carries the failure's text.
pub open spec fn response<T>(outcome: Result<T, DBErrorView>) -> Result<T, HandlerErrorView> {
    match outcome {
        Ok(payload) => Ok(payload),
        Err(error) => Err(HandlerErrorView::InternalError(error.message())),
    }
}

/// The HTTP status that goes out with a handler's result: 200 with a
/// payload, and with an error the error's own.
pub open spec fn status_of<T>(result: Result<T, HandlerErrorView>) -> u16 {
    match result {
        Ok(_) => 200,
        Err(error) => error.status(),
    }
}

/// The verdict once the parser has spoken of an identifier.
pub open spec fn format_verdict(accepted: bool, malformed: Seq<char>) -> Result<
    (),
    HandlerErrorView,
> {
    if accepted {
        Ok(())
    } else {
        Err(HandlerErrorView::BadRequest(malformed))
    }
}

/// Accepts an identifier that the parser accepted, and refuses any other
/// with the given complaint.
pub fn require_uuid(parsed: &Result<u128, String>, malformed: &str) -> (verdict: Result<
    (),
    HandlerError,
>)
    ensures
        outcome_view(verdict) == format_verdict(parsed is Ok, malformed@),
{
    match parsed {
        Ok(_) => Ok(()),
        Err(_) => Err(HandlerError::BadRequest(malformed.to_owned())),
    }
}

/// Checks a new question before data access sees it.
pub fn validate_question(question: &Question) -> (verdict: Result<(), HandlerError>)
    ensures
        outcome_view(verdict) == question_verdict(question@),
{
    if question.title.as_str().is_empty() {
        return Err(HandlerError::BadRequest("Title is required".to_owned()));
    }
    if question.description.as_str().is_empty() {
        return Err(HandlerError::BadRequest("Description is required".to_owned()));
    }
    Ok(())
}

/// Checks the identifier of a question before data access sees it.
pub fn validate_question_id(question_uuid: &QuestionId) -> (verdict: Result<(), HandlerError>)
    ensures
        outcome_view(verdict) == question_id_verdict(question_uuid@),
{
    if question_uuid.question_uuid.as_str().is_empty() {
        return Err(HandlerError::BadRequest("Question UUID is required".to_owned()));
    }
    let parsed = parse_uuid(question_uuid.question_uuid.as_str());
    require_uuid(&parsed, "Invalid question UUID")
}

/// Checks the identifier of an answer before data access sees it.
pub fn validate_answer_id(answer_uuid: &AnswerId) -> (verdict: Result<(), HandlerError>)
    ensures
        outcome_view(verdict) == answer_id_verdict(answer_uuid@),
{
    if answer_uuid.answer_uuid.as_str().is_empty() {
        return Err(HandlerError::BadRequest("Answer UUID is required".to_owned()));
    }
    let parsed = parse_uuid(answer_uuid.answer_uuid.as_str());
    require_uuid(&parsed, "Invalid answer UUID")
}

/// Checks a new answer before data access sees it.
pub fn validate_answer(answer: &Answer) -> (verdict: Result<(), HandlerError>)
    ensures
        outcome_view(verdict) == answer_verdict(answer@),
{
    if answer.content.as_str().is_empty() {
        return Err(HandlerError::BadRequest("Content is required".to_owned()));
    }
    let parsed = parse_uuid(answer.question_uuid.as_str());
    require_uuid(&parsed, "Invalid question UUID")
}

/// The HTTP status that goes out with a handler's result.
pub fn response_status<T: DeepView>(result: &Result<T, HandlerError>) -> (code: u16)
    ensures
        code == status_of(outcome_view(*result)),
{
    match result {
        Ok(_) => 200,
        Err(error) => error.status_code(),
    }
}

/// Turns the result of data access into what goes out.
pub fn respond<T: DeepView>(outcome: Result<T, DBError>) -> (result: Result<T, HandlerError>)
    ensures
        outcome_view(result) == response(outcome_view(outcome)),
        outcome matches Ok(payload) ==> (result matches Ok(same) && same == payload),
{
    match outcome {
        Ok(payload) => Ok(payload),
        Err(error) => Err(HandlerError::InternalError(error.to_string())),
    }
}

} // verus!
