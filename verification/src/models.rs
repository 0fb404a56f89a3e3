//! What comes in and goes out, and the failures of data access.

use vstd::prelude::*;

pub mod postgres_error_codes;

verus! {

/// A question as a client submits it.
#[derive(Clone, Debug, PartialEq, Eq)]
pub struct Question {
    pub title: String,
    pub description: String,
}

/// A stored question as it is reported back.
#[derive(Clone, Debug, PartialEq, Eq)]
pub struct QuestionDetail {
    pub question_uuid: String,
    pub title: String,
    pub description: String,
    pub created_at: String,
}

/// The identifier of a question, as a client names it.
#[derive(Clone, Debug, PartialEq, Eq)]
pub struct QuestionId {
    pub question_uuid: String,
}

/// An answer as a client submits it.
#[derive(Clone, Debug, PartialEq, Eq)]
pub struct Answer {
    pub question_uuid: String,
    pub content: String,
}

/// A stored answer as it is reported back.
#[derive(Clone, Debug, PartialEq, Eq)]
pub struct AnswerDetail {
    pub answer_uuid: String,
    pub question_uuid: String,
    pub content: String,
    pub created_at: String,
}

/// The identifier of an answer, as a client names it.
#[derive(Clone, Debug, PartialEq, Eq)]
pub struct AnswerId {
    pub answer_uuid: String,
}

/// Why a data access operation failed.
#[derive(Clone, Debug, PartialEq, Eq)]
pub enum DBError {
    /// The identifier is no UUID, or names a question that does not exist.
    InvalidUUID(String),
    /// Any other failure of the store, with its cause as text.
    Other(String),
}

pub struct QuestionView {
    pub title: Seq<char>,
    pub description: Seq<char>,
}

pub struct QuestionDetailView {
    pub question_uuid: Seq<char>,
    pub title: Seq<char>,
    pub description: Seq<char>,
    pub created_at: Seq<char>,
}

pub struct AnswerView {
    pub question_uuid: Seq<char>,
    pub content: Seq<char>,
}

pub struct AnswerDetailView {
    pub answer_uuid: Seq<char>,
    pub question_uuid: Seq<char>,
    pub content: Seq<char>,
    pub created_at: Seq<char>,
}

pub enum DBErrorView {
    InvalidUUID(Seq<char>),
    Other(Seq<char>),
}

impl View for Question {
    type V = QuestionView;

    open spec fn view(&self) -> QuestionView {
        QuestionView { title: self.title@, description: self.description@ }
    }
}

impl DeepView for Question {
    type V = QuestionView;

    open spec fn deep_view(&self) -> QuestionView {
        self@
    }
}

impl View for QuestionDetail {
    type V = QuestionDetailView;

    open spec fn view(&self) -> QuestionDetailView {
        QuestionDetailView {
            question_uuid: self.question_uuid@,
            title: self.title@,
            description: self.description@,
            created_at: self.created_at@,
        }
    }
}

impl DeepView for QuestionDetail {
    type V = QuestionDetailView;

    open spec fn deep_view(&self) -> QuestionDetailView {
        self@
    }
}

impl View for QuestionId {
    type V = Seq<char>;

    open spec fn view(&self) -> Seq<char> {
        self.question_uuid@
    }
}

impl View for Answer {
    type V = AnswerView;

    open spec fn view(&self) -> AnswerView {
        AnswerView { question_uuid: self.question_uuid@, content: self.content@ }
    }
}

impl DeepView for Answer {
    type V = AnswerView;

    open spec fn deep_view(&self) -> AnswerView {
        self@
    }
}

impl View for AnswerDetail {
    type V = AnswerDetailView;

    open spec fn view(&self) -> AnswerDetailView {
        AnswerDetailView {
            answer_uuid: self.answer_uuid@,
            question_uuid: self.question_uuid@,
            content: self.content@,
            created_at: self.created_at@,
        }
    }
}

impl DeepView for AnswerDetail {
    type V = AnswerDetailView;

    open spec fn deep_view(&self) -> AnswerDetailView {
        self@
    }
}

impl View for AnswerId {
    type V = Seq<char>;

    open spec fn view(&self) -> Seq<char> {
        self.answer_uuid@
    }
}

impl View for DBError {
    type V = DBErrorView;

    open spec fn view(&self) -> DBErrorView {
        match self {
            DBError::InvalidUUID(detail) => DBErrorView::InvalidUUID(detail@),
            DBError::Other(cause) => DBErrorView::Other(cause@),
        }
    }
}

impl DeepView for DBError {
    type V = DBErrorView;

    open spec fn deep_view(&self) -> DBErrorView {
        self@
    }
}

impl DBErrorView {
    /// The error as text: the detail or the cause that it carries.
    pub open spec fn message(self) -> Seq<char> {
        match self {
            DBErrorView::InvalidUUID(detail) => detail,
            DBErrorView::Other(cause) => cause,
        }
    }
}

impl DBError {
    /// The error as text.
    pub fn to_string(&self) -> (text: String)
        ensures
            text@ == self@.message(),
    {
        match self {
            DBError::InvalidUUID(detail) => detail.clone(),
            DBError::Other(cause) => cause.clone(),
        }
    }
}

/// A result with both sides taken by their views.
pub open spec fn outcome_view<T: DeepView, E: DeepView>(outcome: Result<T, E>) -> Result<T::V, E::V> {
    match outcome {
        Ok(value) => Ok(value.deep_view()),
        Err(error) => Err(error.deep_view()),
    }
}

} // verus!
