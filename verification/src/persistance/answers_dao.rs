//! Data access for answers: create, list by question, delete.

use crate::identifier::{hyphenated, is_uuid, uuid_parse, uuid_text};
use crate::models::postgres_error_codes::FOREIGN_KEY_VIOLATION;
use crate::models::{
    outcome_view, Answer, AnswerDetail, AnswerDetailView, AnswerView, DBError, DBErrorView,
};
use crate::persistance::database::{AnswerRow, AnswerRowView, Database, StoreError, StoreErrorView};
use crate::persistance::read_identifier;
use vstd::prelude::*;

verus! {

/// Data access for answers. Every operation is scoped by a question or
/// names one answer.
///
/// Beside each operation stands a relation that says what one call may do
/// to the component and answer. An implementation with nothing to state
/// about itself leaves the relation at `true`.
pub trait AnswersDao: Sized {
    open spec fn creates_answer(
        pre: Self,
        answer: AnswerView,
        post: Self,
        result: Result<AnswerDetailView, DBErrorView>,
    ) -> bool {
        true
    }

    open spec fn deletes_answer(
        pre: Self,
        answer_uuid: Seq<char>,
        post: Self,
        result: Result<(), DBErrorView>,
    ) -> bool {
        true
    }

    open spec fn gets_answers(
        dao: Self,
        question_uuid: Seq<char>,
        result: Result<Seq<AnswerDetailView>, DBErrorView>,
    ) -> bool {
        true
    }

    fn create_answer(&mut self, answer: Answer) -> (result: Result<AnswerDetail, DBError>)
        ensures
            Self::creates_answer(*old(self), answer@, *final(self), outcome_view(result)),
    ;

    fn delete_answer(&mut self, answer_uuid: String) -> (result: Result<(), DBError>)
        ensures
            Self::deletes_answer(*old(self), answer_uuid@, *final(self), outcome_view(result)),
    ;

    fn get_answers(&self, question_uuid: String) -> (result: Result<Vec<AnswerDetail>, DBError>)
        ensures
            Self::gets_answers(*self, question_uuid@, outcome_view(result)),
    ;
}

/// The projection of a stored answer that goes out to clients.
pub open spec fn answer_detail(row: AnswerRowView) -> AnswerDetailView {
    AnswerDetailView {
        answer_uuid: hyphenated(row.answer_uuid),
        question_uuid: hyphenated(row.question_uuid),
        content: row.content,
        created_at: row.created_at,
    }
}

/// The projections of stored answers, in the order of the rows.
pub open spec fn answer_details(rows: Seq<AnswerRowView>) -> Seq<AnswerDetailView> {
    Seq::new(rows.len(), |i: int| answer_detail(rows[i]))
}

/// How a failed insert of an answer is reported: a broken foreign key
/// means that the question does not exist, anything else is the store's
/// own trouble.
pub open spec fn insert_failure(error: StoreErrorView) -> DBErrorView {
    if error.code == Some(FOREIGN_KEY_VIOLATION@) {
        DBErrorView::InvalidUUID("Question not found"@)
    } else {
        DBErrorView::Other(error.message)
    }
}

/// Whatever a result holds of answers, each is named by a UUID and names
/// its question by one.
pub open spec fn names_answer(result: Result<AnswerDetailView, DBErrorView>) -> bool {
    result matches Ok(detail) ==> is_uuid(detail.answer_uuid) && is_uuid(detail.question_uuid)
}

/// Whatever a result lists of answers, each is named by a UUID and names
/// its question by one.
pub open spec fn names_answers(result: Result<Seq<AnswerDetailView>, DBErrorView>) -> bool {
    result matches Ok(details) ==> forall|i: int|
        0 <= i < details.len() ==> is_uuid(#[trigger] details[i].answer_uuid) && is_uuid(
            details[i].question_uuid,
        )
}

/// What `create_answer` returns for each outcome of the insert.
pub open spec fn created_answer(outcome: Result<AnswerRowView, StoreErrorView>) -> Result<
    AnswerDetailView,
    DBErrorView,
> {
    match outcome {
        Ok(row) => Ok(answer_detail(row)),
        Err(error) => Err(insert_failure(error)),
    }
}

/// What `delete_answer` returns for each outcome of the delete: success
/// however many rows went, none included.
pub open spec fn deleted_answer(outcome: Result<u64, StoreErrorView>) -> Result<(), DBErrorView> {
    match outcome {
        Ok(_) => Ok(()),
        Err(error) => Err(DBErrorView::Other(error.message)),
    }
}

/// What `get_answers` returns for each outcome of the select.
pub open spec fn listed_answers(outcome: Result<Seq<AnswerRowView>, StoreErrorView>) -> Result<
    Seq<AnswerDetailView>,
    DBErrorView,
> {
    match outcome {
        Ok(rows) => Ok(answer_details(rows)),
        Err(error) => Err(DBErrorView::Other(error.message)),
    }
}

/// Projects one stored answer. Both identifiers come out in UUID format.
pub fn to_answer_detail(row: &AnswerRow) -> (detail: AnswerDetail)
    ensures
        detail@ == answer_detail(row@),
        is_uuid(detail.answer_uuid@),
        is_uuid(detail.question_uuid@),
{
    AnswerDetail {
        answer_uuid: uuid_text(row.answer_uuid),
        question_uuid: uuid_text(row.question_uuid),
        content: row.content.clone(),
        created_at: row.created_at.clone(),
    }
}

/// Classifies a failed insert of an answer.
pub fn to_insert_failure(error: StoreError) -> (failure: DBError)
    ensures
        failure@ == insert_failure(error@),
{
    let foreign_key = match &error.code {
        Some(code) => *code == FOREIGN_KEY_VIOLATION.to_owned(),
        None => false,
    };
    if foreign_key {
        DBError::InvalidUUID("Question not found".to_owned())
    } else {
        DBError::Other(error.message)
    }
}

/// Finishes `create_answer` once the store has answered the insert.
pub fn answer_created(outcome: Result<AnswerRow, StoreError>) -> (result: Result<
    AnswerDetail,
    DBError,
>)
    ensures
        outcome_view(result) == created_answer(outcome_view(outcome)),
        names_answer(outcome_view(result)),
{
    match outcome {
        Ok(row) => Ok(to_answer_detail(&row)),
        Err(error) => Err(to_insert_failure(error)),
    }
}

/// Finishes `delete_answer` once the store has answered the delete.
pub fn answer_deleted(outcome: Result<u64, StoreError>) -> (result: Result<(), DBError>)
    ensures
        outcome_view(result) == deleted_answer(outcome_view(outcome)),
{
    match outcome {
        Ok(_) => Ok(()),
        Err(error) => Err(DBError::Other(error.message)),
    }
}

/// Finishes `get_answers` once the store has answered the select.
pub fn answers_listed(outcome: Result<Vec<AnswerRow>, StoreError>) -> (result: Result<
    Vec<AnswerDetail>,
    DBError,
>)
    ensures
        outcome_view(result) == listed_answers(outcome_view(outcome)),
        names_answers(outcome_view(result)),
{
    match outcome {
        Ok(rows) => {
            let mut details: Vec<AnswerDetail> = Vec::new();
            let mut i: usize = 0;
            while i < rows.len()
                invariant
                    i <= rows.len(),
                    details.len() == i,
                    forall|k: int|
                        0 <= k < i ==> (#[trigger] details[k])@ == answer_detail(rows[k]@)
                            && is_uuid(details[k].answer_uuid@) && is_uuid(
                            details[k].question_uuid@,
                        ),
                decreases rows.len() - i,
            {
                details.push(to_answer_detail(&rows[i]));
                i = i + 1;
            }
            assert(details.deep_view() =~= answer_details(rows.deep_view()));
            assert forall|k: int| 0 <= k < details.len() implies is_uuid(
                #[trigger] details.deep_view()[k].answer_uuid,
            ) && is_uuid(details.deep_view()[k].question_uuid) by {
                assert(details[k]@ == answer_detail(rows[k]@));
            }
            Ok(details)
        },
        Err(error) => Err(DBError::Other(error.message)),
    }
}

/// The answers component over a relational store.
#[derive(Clone)]
pub struct AnswersDaoImpl<D: Database> {
    pub db: D,
}

impl<D: Database> AnswersDaoImpl<D> {
    pub fn new(db: D) -> (dao: Self)
        ensures
            dao.db == db,
    {
        Self { db }
    }
}

impl<D: Database> AnswersDao for AnswersDaoImpl<D> {
    /// A malformed `question_uuid` is refused before the store is asked.
    /// Otherwise one insert goes to the store, and its outcome decides.
    /// The identifiers go out in UUID format.
    open spec fn creates_answer(
        pre: Self,
        answer: AnswerView,
        post: Self,
        result: Result<AnswerDetailView, DBErrorView>,
    ) -> bool {
        match uuid_parse(answer.question_uuid) {
            Err(message) => post == pre && result == Err::<AnswerDetailView, DBErrorView>(
                DBErrorView::InvalidUUID(message),
            ),
            Ok(question_uuid) => exists|outcome: Result<AnswerRowView, StoreErrorView>|
                #[trigger] D::inserts_answer(pre.db, question_uuid, answer.content, post.db, outcome)
                    && result == created_answer(outcome) && names_answer(result),
        }
    }

    /// A malformed `answer_uuid` is refused before the store is asked.
    /// Otherwise one delete goes to the store, and its outcome decides.
    open spec fn deletes_answer(
        pre: Self,
        answer_uuid: Seq<char>,
        post: Self,
        result: Result<(), DBErrorView>,
    ) -> bool {
        match uuid_parse(answer_uuid) {
            Err(message) => post == pre && result == Err::<(), DBErrorView>(
                DBErrorView::InvalidUUID(message),
            ),
            Ok(identifier) => exists|outcome: Result<u64, StoreErrorView>|
                #[trigger] D::deletes_answer(pre.db, identifier, post.db, outcome) && result
                    == deleted_answer(outcome),
        }
    }

    /// A malformed `question_uuid` is refused before the store is asked.
    /// Otherwise one select goes to the store, and its outcome decides.
    /// Every identifier goes out in UUID format.
    open spec fn gets_answers(
        dao: Self,
        question_uuid: Seq<char>,
        result: Result<Seq<AnswerDetailView>, DBErrorView>,
    ) -> bool {
        match uuid_parse(question_uuid) {
            Err(message) => result == Err::<Seq<AnswerDetailView>, DBErrorView>(
                DBErrorView::InvalidUUID(message),
            ),
            Ok(identifier) => exists|outcome: Result<Seq<AnswerRowView>, StoreErrorView>|
                #[trigger] D::selects_answers(dao.db, identifier, outcome) && result
                    == listed_answers(outcome) && names_answers(result),
        }
    }

    fn create_answer(&mut self, answer: Answer) -> (result: Result<AnswerDetail, DBError>) {
        let ghost request = answer@;
        match read_identifier(answer.question_uuid.as_str()) {
            Err(error) => Err(error),
            Ok(question_uuid) => {
                let ghost before = self.db;
                let outcome = self.db.insert_answer(question_uuid, answer.content);
                assert(D::inserts_answer(
                    before,
                    question_uuid,
                    request.content,
                    self.db,
                    outcome_view(outcome),
                ));
                answer_created(outcome)
            },
        }
    }

    fn delete_answer(&mut self, answer_uuid: String) -> (result: Result<(), DBError>) {
        match read_identifier(answer_uuid.as_str()) {
            Err(error) => Err(error),
            Ok(identifier) => {
                let ghost before = self.db;
                let outcome = self.db.delete_answer(identifier);
                assert(D::deletes_answer(before, identifier, self.db, outcome_view(outcome)));
                answer_deleted(outcome)
            },
        }
    }

    fn get_answers(&self, question_uuid: String) -> (result: Result<Vec<AnswerDetail>, DBError>) {
        match read_identifier(question_uuid.as_str()) {
            Err(error) => Err(error),
            Ok(identifier) => {
                let outcome = self.db.select_answers(identifier);
                assert(D::selects_answers(self.db, identifier, outcome_view(outcome)));
                answers_listed(outcome)
            },
        }
    }
}

} // verus!
