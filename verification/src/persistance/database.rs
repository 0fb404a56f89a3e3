//! The relational store as data access sees it: rows, failures, and the
//! six statements.

use crate::models::outcome_view;
use vstd::prelude::*;

verus! {

/// A row of the `questions` table.
#[derive(Clone, Debug, PartialEq, Eq)]
pub struct QuestionRow {
    pub question_uuid: u128,
    pub title: String,
    pub description: String,
    pub created_at: String,
}

/// A row of the `answers` table.
#[derive(Clone, Debug, PartialEq, Eq)]
pub struct AnswerRow {
    pub answer_uuid: u128,
    pub question_uuid: u128,
    pub content: String,
    pub created_at: String,
}

/// A failure that the store reports: the SQLSTATE code, where the database
/// itself refused the statement, and the failure as text.
#[derive(Clone, Debug, PartialEq, Eq)]
pub struct StoreError {
    pub code: Option<String>,
    pub message: String,
}

pub struct QuestionRowView {
    pub question_uuid: u128,
    pub title: Seq<char>,
    pub description: Seq<char>,
    pub created_at: Seq<char>,
}

pub struct AnswerRowView {
    pub answer_uuid: u128,
    pub question_uuid: u128,
    pub content: Seq<char>,
    pub created_at: Seq<char>,
}

pub struct StoreErrorView {
    pub code: Option<Seq<char>>,
    pub message: Seq<char>,
}

impl View for QuestionRow {
    type V = QuestionRowView;

    open spec fn view(&self) -> QuestionRowView {
        QuestionRowView {
            question_uuid: self.question_uuid,
            title: self.title@,
            description: self.description@,
            created_at: self.created_at@,
        }
    }
}

impl DeepView for QuestionRow {
    type V = QuestionRowView;

    open spec fn deep_view(&self) -> QuestionRowView {
        self@
    }
}

impl View for AnswerRow {
    type V = AnswerRowView;

    open spec fn view(&self) -> AnswerRowView {
        AnswerRowView {
            answer_uuid: self.answer_uuid,
            question_uuid: self.question_uuid,
            content: self.content@,
            created_at: self.created_at@,
        }
    }
}

impl DeepView for AnswerRow {
    type V = AnswerRowView;

    open spec fn deep_view(&self) -> AnswerRowView {
        self@
    }
}

impl View for StoreError {
    type V = StoreErrorView;

    open spec fn view(&self) -> StoreErrorView {
        StoreErrorView {
            code: match self.code {
                Some(code) => Some(code@),
                None => None,
            },
            message: self.message@,
        }
    }
}

impl DeepView for StoreError {
    type V = StoreErrorView;

    open spec fn deep_view(&self) -> StoreErrorView {
        self@
    }
}

/// The insert into `questions`, as it goes to a store that speaks SQL.
pub const INSERT_QUESTION: &'static str =
    "INSERT INTO questions (title, description) VALUES ($1, $2) RETURNING *";

/// The select from `questions`.
pub const SELECT_QUESTIONS: &'static str = "SELECT * FROM questions";

/// The delete from `questions`.
pub const DELETE_QUESTION: &'static str = "DELETE FROM questions WHERE question_uuid = $1";

/// The insert into `answers`.
pub const INSERT_ANSWER: &'static str =
    "INSERT INTO answers (question_uuid, content) VALUES ($1, $2) RETURNING *";

/// The select from `answers`.
pub const SELECT_ANSWERS: &'static str = "SELECT * FROM answers WHERE question_uuid = $1";

/// The delete from `answers`.
pub const DELETE_ANSWER: &'static str = "DELETE FROM answers WHERE answer_uuid = $1";

/// The six statements that the data access layer sends to its relational
/// store. Each call is one exchange with the store: it either yields what
/// the statement returned or the failure that the store reported.
///
/// Beside each statement stands a relation that says what one call may do
/// to the store and answer. An implementation with nothing to state about
/// itself leaves the relation at `true`.
pub trait Database: Sized {
    open spec fn inserts_question(
        pre: Self,
        title: Seq<char>,
        description: Seq<char>,
        post: Self,
        outcome: Result<QuestionRowView, StoreErrorView>,
    ) -> bool {
        true
    }

    open spec fn selects_questions(
        store: Self,
        outcome: Result<Seq<QuestionRowView>, StoreErrorView>,
    ) -> bool {
        true
    }

    open spec fn deletes_question(
        pre: Self,
        question_uuid: u128,
        post: Self,
        outcome: Result<u64, StoreErrorView>,
    ) -> bool {
        true
    }

    open spec fn inserts_answer(
        pre: Self,
        question_uuid: u128,
        content: Seq<char>,
        post: Self,
        outcome: Result<AnswerRowView, StoreErrorView>,
    ) -> bool {
        true
    }

    open spec fn selects_answers(
        store: Self,
        question_uuid: u128,
        outcome: Result<Seq<AnswerRowView>, StoreErrorView>,
    ) -> bool {
        true
    }

    open spec fn deletes_answer(
        pre: Self,
        answer_uuid: u128,
        post: Self,
        outcome: Result<u64, StoreErrorView>,
    ) -> bool {
        true
    }

    /// Carries out [`INSERT_QUESTION`] and yields the row as it is stored.
    fn insert_question(&mut self, title: String, description: String) -> (outcome: Result<
        QuestionRow,
        StoreError,
    >)
        ensures
            Self::inserts_question(
                *old(self),
                title@,
                description@,
                *final(self),
                outcome_view(outcome),
            ),
    ;

    /// Carries out [`SELECT_QUESTIONS`] and yields the rows in the order in
    /// which the store gives them.
    fn select_questions(&self) -> (outcome: Result<Vec<QuestionRow>, StoreError>)
        ensures
            Self::selects_questions(*self, outcome_view(outcome)),
    ;

    /// Carries out [`DELETE_QUESTION`] and yields the number of rows that
    /// went.
    fn delete_question(&mut self, question_uuid: u128) -> (outcome: Result<u64, StoreError>)
        ensures
            Self::deletes_question(*old(self), question_uuid, *final(self), outcome_view(outcome)),
    ;

    /// Carries out [`INSERT_ANSWER`] and yields the row as it is stored.
    fn insert_answer(&mut self, question_uuid: u128, content: String) -> (outcome: Result<
        AnswerRow,
        StoreError,
    >)
        ensures
            Self::inserts_answer(
                *old(self),
                question_uuid,
                content@,
                *final(self),
                outcome_view(outcome),
            ),
    ;

    /// Carries out [`SELECT_ANSWERS`] and yields the rows in the order in
    /// which the store gives them.
    fn select_answers(&self, question_uuid: u128) -> (outcome: Result<Vec<AnswerRow>, StoreError>)
        ensures
            Self::selects_answers(*self, question_uuid, outcome_view(outcome)),
    ;

    /// Carries out [`DELETE_ANSWER`] and yields the number of rows that
    /// went.
    fn delete_answer(&mut self, answer_uuid: u128) -> (outcome: Result<u64, StoreError>)
        ensures
            Self::deletes_answer(*old(self), answer_uuid, *final(self), outcome_view(outcome)),
    ;
}

} // verus!
