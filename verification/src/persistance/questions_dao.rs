//! Data access for questions: create, list, delete.

use crate::identifier::{hyphenated, is_uuid, uuid_parse, uuid_text};
use crate::models::{
    outcome_view, DBError, DBErrorView, Question, QuestionDetail, QuestionDetailView,
    QuestionView,
};
use crate::persistance::database::{
    Database, QuestionRow, QuestionRowView, StoreError, StoreErrorView,
};
use crate::persistance::read_identifier;
use vstd::prelude::*;

verus! {

/// Data access for questions.
///
/// Beside each operation stands a relation that says what one call may do
/// to the component and answer. An implementation with nothing to state
/// about itself leaves the relation at `true`.
pub trait QuestionsDao: Sized {
    open spec fn creates_question(
        pre: Self,
        question: QuestionView,
        post: Self,
        result: Result<QuestionDetailView, DBErrorView>,
    ) -> bool {
        true
    }

    open spec fn deletes_question(
        pre: Self,
        question_uuid: Seq<char>,
        post: Self,
        result: Result<(), DBErrorView>,
    ) -> bool {
        true
    }

    open spec fn gets_questions(
        dao: Self,
        result: Result<Seq<QuestionDetailView>, DBErrorView>,
    ) -> bool {
        true
    }

    fn create_question(&mut self, question: Question) -> (result: Result<QuestionDetail, DBError>)
        ensures
            Self::creates_question(*old(self), question@, *final(self), outcome_view(result)),
    ;

    fn delete_question(&mut self, question_uuid: String) -> (result: Result<(), DBError>)
        ensures
            Self::deletes_question(*old(self), question_uuid@, *final(self), outcome_view(result)),
    ;

    fn get_questions(&self) -> (result: Result<Vec<QuestionDetail>, DBError>)
        ensures
            Self::gets_questions(*self, outcome_view(result)),
    ;
}

/// The projection of a stored question that goes out to clients.
pub open spec fn question_detail(row: QuestionRowView) -> QuestionDetailView {
    QuestionDetailView {
        question_uuid: hyphenated(row.question_uuid),
        title: row.title,
        description: row.description,
        created_at: row.created_at,
    }
}

/// The projections of stored questions, in the order of the rows.
pub open spec fn question_details(rows: Seq<QuestionRowView>) -> Seq<QuestionDetailView> {
    Seq::new(rows.len(), |i: int| question_detail(rows[i]))
}

/// Whatever a result holds of questions, each is named by a UUID.
pub open spec fn names_question(result: Result<QuestionDetailView, DBErrorView>) -> bool {
    result matches Ok(detail) ==> is_uuid(detail.question_uuid)
}

/// Whatever a result lists of questions, each is named by a UUID.
pub open spec fn names_questions(result: Result<Seq<QuestionDetailView>, DBErrorView>) -> bool {
    result matches Ok(details) ==> forall|i: int|
        0 <= i < details.len() ==> is_uuid(#[trigger] details[i].question_uuid)
}

/// What goes out for a question that was just stored: the identifier and
/// the time that the store gave it, with the fields that came in.
pub open spec fn new_question_detail(question: QuestionView, row: QuestionRowView) -> QuestionDetailView {
    QuestionDetailView {
        question_uuid: hyphenated(row.question_uuid),
        title: question.title,
        description: question.description,
        created_at: row.created_at,
    }
}

/// What `create_question` returns for each outcome of the insert.
pub open spec fn created_question(
    question: QuestionView,
    outcome: Result<QuestionRowView, StoreErrorView>,
) -> Result<QuestionDetailView, DBErrorView> {
    match outcome {
        Ok(row) => Ok(new_question_detail(question, row)),
        Err(error) => Err(DBErrorView::Other(error.message)),
    }
}

/// What `delete_question` returns for each outcome of the delete: success
/// however many rows went, none included.
pub open spec fn deleted_question(outcome: Result<u64, StoreErrorView>) -> Result<(), DBErrorView> {
    match outcome {
        Ok(_) => Ok(()),
        Err(error) => Err(DBErrorView::Other(error.message)),
    }
}

/// What `get_questions` returns for each outcome of the select.
pub open spec fn listed_questions(outcome: Result<Seq<QuestionRowView>, StoreErrorView>) -> Result<
    Seq<QuestionDetailView>,
    DBErrorView,
> {
    match outcome {
        Ok(rows) => Ok(question_details(rows)),
        Err(error) => Err(DBErrorView::Other(error.message)),
    }
}

/// Projects one stored question. The identifier comes out in UUID format.
pub fn to_question_detail(row: &QuestionRow) -> (detail: QuestionDetail)
    ensures
        detail@ == question_detail(row@),
        is_uuid(detail.question_uuid@),
{
    QuestionDetail {
        question_uuid: uuid_text(row.question_uuid),
        title: row.title.clone(),
        description: row.description.clone(),
        created_at: row.created_at.clone(),
    }
}

/// Finishes `create_question` once the store has answered the insert.
pub fn question_created(question: Question, outcome: Result<QuestionRow, StoreError>) -> (result:
    Result<QuestionDetail, DBError>)
    ensures
        outcome_view(result) == created_question(question@, outcome_view(outcome)),
        names_question(outcome_view(result)),
{
    match outcome {
        Ok(row) => Ok(
            QuestionDetail {
                question_uuid: uuid_text(row.question_uuid),
                title: question.title,
                description: question.description,
                created_at: row.created_at,
            },
        ),
        Err(error) => Err(DBError::Other(error.message)),
    }
}

/// Finishes `delete_question` once the store has answered the delete.
pub fn question_deleted(outcome: Result<u64, StoreError>) -> (result: Result<(), DBError>)
    ensures
        outcome_view(result) == deleted_question(outcome_view(outcome)),
{
    match outcome {
        Ok(_) => Ok(()),
        Err(error) => Err(DBError::Other(error.message)),
    }
}

/// Finishes `get_questions` once the store has answered the select.
pub fn questions_listed(outcome: Result<Vec<QuestionRow>, StoreError>) -> (result: Result<
    Vec<QuestionDetail>,
    DBError,
>)
    ensures
        outcome_view(result) == listed_questions(outcome_view(outcome)),
        names_questions(outcome_view(result)),
{
    match outcome {
        Ok(rows) => {
            let mut details: Vec<QuestionDetail> = Vec::new();
            let mut i: usize = 0;
            while i < rows.len()
                invariant
                    i <= rows.len(),
                    details.len() == i,
                    forall|k: int|
                        0 <= k < i ==> (#[trigger] details[k])@ == question_detail(rows[k]@)
                            && is_uuid(details[k].question_uuid@),
                decreases rows.len() - i,
            {
                details.push(to_question_detail(&rows[i]));
                i = i + 1;
            }
            assert(details.deep_view() =~= question_details(rows.deep_view()));
            assert forall|k: int| 0 <= k < details.len() implies is_uuid(
                #[trigger] details.deep_view()[k].question_uuid,
            ) by {
                assert(details[k]@ == question_detail(rows[k]@));
            }
            Ok(details)
        },
        Err(error) => Err(DBError::Other(error.message)),
    }
}

/// The questions component over a relational store.
#[derive(Clone)]
pub struct QuestionsDaoImpl<D: Database> {
    pub db: D,
}

impl<D: Database> QuestionsDaoImpl<D> {
    pub fn new(db: D) -> (dao: Self)
        ensures
            dao.db == db,
    {
        Self { db }
    }
}

impl<D: Database> QuestionsDao for QuestionsDaoImpl<D> {
    /// One insert goes to the store, and its outcome decides. The
    /// identifier is the store's to generate, so there is none to refuse;
    /// it goes out in UUID format, with the fields that came in.
    open spec fn creates_question(
        pre: Self,
        question: QuestionView,
        post: Self,
        result: Result<QuestionDetailView, DBErrorView>,
    ) -> bool {
        exists|outcome: Result<QuestionRowView, StoreErrorView>|
            #[trigger] D::inserts_question(
                pre.db,
                question.title,
                question.description,
                post.db,
                outcome,
            ) && result == created_question(question, outcome) && names_question(result)
    }

    /// A malformed `question_uuid` is refused before the store is asked.
    /// Otherwise one delete goes to the store, and its outcome decides.
    open spec fn deletes_question(
        pre: Self,
        question_uuid: Seq<char>,
        post: Self,
        result: Result<(), DBErrorView>,
    ) -> bool {
        match uuid_parse(question_uuid) {
            Err(message) => post == pre && result == Err::<(), DBErrorView>(
                DBErrorView::InvalidUUID(message),
            ),
            Ok(identifier) => exists|outcome: Result<u64, StoreErrorView>|
                #[trigger] D::deletes_question(pre.db, identifier, post.db, outcome) && result
                    == deleted_question(outcome),
        }
    }

    /// One select goes to the store, and its outcome decides. Every
    /// identifier goes out in UUID format.
    open spec fn gets_questions(
        dao: Self,
        result: Result<Seq<QuestionDetailView>, DBErrorView>,
    ) -> bool {
        exists|outcome: Result<Seq<QuestionRowView>, StoreErrorView>|
            #[trigger] D::selects_questions(dao.db, outcome) && result == listed_questions(outcome)
                && names_questions(result)
    }

    fn create_question(&mut self, question: Question) -> (result: Result<QuestionDetail, DBError>) {
        let ghost before = self.db;
        let outcome = self.db.insert_question(question.title.clone(), question.description.clone());
        assert(D::inserts_question(
            before,
            question@.title,
            question@.description,
            self.db,
            outcome_view(outcome),
        ));
        question_created(question, outcome)
    }

    fn delete_question(&mut self, question_uuid: String) -> (result: Result<(), DBError>) {
        match read_identifier(question_uuid.as_str()) {
            Err(error) => Err(error),
            Ok(identifier) => {
                let ghost before = self.db;
                let outcome = self.db.delete_question(identifier);
                assert(D::deletes_question(before, identifier, self.db, outcome_view(outcome)));
                question_deleted(outcome)
            },
        }
    }

    fn get_questions(&self) -> (result: Result<Vec<QuestionDetail>, DBError>) {
        let outcome = self.db.select_questions();
        assert(D::selects_questions(self.db, outcome_view(outcome)));
        questions_listed(outcome)
    }
}

} // verus!
