//! What holds of the service as a whole: first whatever store stands
//! behind data access, then with stores held in memory, where the answers
//! of the handlers can be stated over what the stores hold.

use crate::handlers::handlers_inner::{
    answer_id_verdict, answer_verdict, question_id_verdict, response, status_of, HandlerErrorView,
};
use crate::handlers::{
    answer_creation, answer_deletion, answer_listing, question_creation, question_deletion,
    question_listing,
};
use crate::identifier::{is_uuid, uuid_parse};
use crate::models::postgres_error_codes::FOREIGN_KEY_VIOLATION;
use crate::models::{AnswerDetailView, AnswerView, DBErrorView, QuestionDetailView, QuestionView};
use crate::persistance::answers_dao::{AnswersDao, AnswersDaoImpl};
use crate::persistance::database::{AnswerRowView, Database, QuestionRowView, StoreErrorView};
use crate::persistance::memory_store::{
    answer_to, every, has_answer, has_answer_to, has_question, lemma_filter_keeps_all,
    lemma_filter_keeps_every, lemma_filter_keeps_none, lemma_filter_passes_new_row, other_answer,
    other_question, MemoryStore, IDENTIFIER_LIMIT,
};
use crate::persistance::questions_dao::{QuestionsDao, QuestionsDaoImpl};
use crate::AppState;
use vstd::prelude::*;

verus! {

/// Whatever the store: a delete from `questions` that it carries out is
/// answered with success, however many rows went, none included.
pub proof fn theorem_carried_out_question_delete_succeeds<D: Database, A: AnswersDao>(
    pre: AppState<QuestionsDaoImpl<D>, A>,
    question_uuid: Seq<char>,
    post: AppState<QuestionsDaoImpl<D>, A>,
    result: Result<(), HandlerErrorView>,
)
    requires
        question_deletion(pre, question_uuid, post, result),
        question_id_verdict(question_uuid) is Ok,
        forall|outcome: Result<u64, StoreErrorView>| #[trigger]
            D::deletes_question(
                pre.questions_dao.db,
                uuid_parse(question_uuid)->Ok_0,
                post.questions_dao.db,
                outcome,
            ) ==> outcome is Ok,
    ensures
        result is Ok,
        status_of(result) == 200,
{
}

/// Whatever the store: a delete from `answers` that it carries out is
/// answered with success, however many rows went, none included.
pub proof fn theorem_carried_out_answer_delete_succeeds<Q: QuestionsDao, D: Database>(
    pre: AppState<Q, AnswersDaoImpl<D>>,
    answer_uuid: Seq<char>,
    post: AppState<Q, AnswersDaoImpl<D>>,
    result: Result<(), HandlerErrorView>,
)
    requires
        answer_deletion(pre, answer_uuid, post, result),
        answer_id_verdict(answer_uuid) is Ok,
        forall|outcome: Result<u64, StoreErrorView>| #[trigger]
            D::deletes_answer(
                pre.answers_dao.db,
                uuid_parse(answer_uuid)->Ok_0,
                post.answers_dao.db,
                outcome,
            ) ==> outcome is Ok,
    ensures
        result is Ok,
        status_of(result) == 200,
{
}

/// Whatever the store: when it refuses the insert of an answer for a
/// broken foreign key, the request fails as an internal error that says
/// that the question was not found, though the identifier is a UUID.
pub proof fn theorem_broken_foreign_key_is_internal_error<Q: QuestionsDao, D: Database>(
    pre: AppState<Q, AnswersDaoImpl<D>>,
    answer: AnswerView,
    post: AppState<Q, AnswersDaoImpl<D>>,
    result: Result<AnswerDetailView, HandlerErrorView>,
)
    requires
        answer_creation(pre, answer, post, result),
        answer_verdict(answer) is Ok,
        forall|outcome: Result<AnswerRowView, StoreErrorView>| #[trigger]
            D::inserts_answer(
                pre.answers_dao.db,
                uuid_parse(answer.question_uuid)->Ok_0,
                answer.content,
                post.answers_dao.db,
                outcome,
            ) ==> (outcome matches Err(failure) && failure.code == Some(FOREIGN_KEY_VIOLATION@)),
    ensures
        status_of(result) == 500,
        result matches Err(error) && error.message() == "Question not found"@,
{
}

/// Whatever the store: when it finds no answer to a question, the
/// request is answered with an empty list, not with an error.
pub proof fn theorem_no_rows_are_an_empty_list<Q: QuestionsDao, D: Database>(
    state: AppState<Q, AnswersDaoImpl<D>>,
    question_uuid: Seq<char>,
    result: Result<Seq<AnswerDetailView>, HandlerErrorView>,
)
    requires
        answer_listing(state, question_uuid, result),
        question_id_verdict(question_uuid) is Ok,
        forall|outcome: Result<Seq<AnswerRowView>, StoreErrorView>| #[trigger]
            D::selects_answers(state.answers_dao.db, uuid_parse(question_uuid)->Ok_0, outcome)
                ==> (outcome matches Ok(rows) && rows.len() == 0),
    ensures
        status_of(result) == 200,
        result matches Ok(details) && details.len() == 0,
{
}

/// Whatever the store and whatever it answers: once a request has passed
/// the checks of its handler, it is answered with 200 or with 500, and a
/// failure of data access never goes out as a bad request.
pub proof fn theorem_data_access_never_fails_as_bad_request<T>(outcome: Result<T, DBErrorView>)
    ensures
        outcome is Ok ==> status_of(response(outcome)) == 200,
        outcome is Err ==> status_of(response(outcome)) == 500,
{
}

/// Deleting a question that is not stored succeeds and changes nothing.
pub proof fn theorem_deleting_unknown_question_succeeds<A: AnswersDao>(
    pre: AppState<QuestionsDaoImpl<MemoryStore>, A>,
    question_uuid: Seq<char>,
    post: AppState<QuestionsDaoImpl<MemoryStore>, A>,
    result: Result<(), HandlerErrorView>,
)
    requires
        question_deletion(pre, question_uuid, post, result),
        question_uuid.len() > 0,
        uuid_parse(question_uuid) matches Ok(identifier) && !has_question(
            pre.questions_dao.db@.questions,
            identifier,
        ),
    ensures
        result is Ok,
        status_of(result) == 200,
        post.questions_dao.db@ == pre.questions_dao.db@,
        post.answers_dao == pre.answers_dao,
{
    let identifier = uuid_parse(question_uuid)->Ok_0;
    let rows = pre.questions_dao.db@.questions;
    assert(every(rows, other_question(identifier)));
    lemma_filter_keeps_all(rows, other_question(identifier));
}

/// Deleting an answer that is not stored succeeds and changes nothing.
pub proof fn theorem_deleting_unknown_answer_succeeds<Q: QuestionsDao>(
    pre: AppState<Q, AnswersDaoImpl<MemoryStore>>,
    answer_uuid: Seq<char>,
    post: AppState<Q, AnswersDaoImpl<MemoryStore>>,
    result: Result<(), HandlerErrorView>,
)
    requires
        answer_deletion(pre, answer_uuid, post, result),
        answer_uuid.len() > 0,
        uuid_parse(answer_uuid) matches Ok(identifier) && !has_answer(
            pre.answers_dao.db@.answers,
            identifier,
        ),
    ensures
        result is Ok,
        status_of(result) == 200,
        post.answers_dao.db@ == pre.answers_dao.db@,
        post.questions_dao == pre.questions_dao,
{
    let identifier = uuid_parse(answer_uuid)->Ok_0;
    let rows = pre.answers_dao.db@.answers;
    assert(every(rows, other_answer(identifier)));
    lemma_filter_keeps_all(rows, other_answer(identifier));
}

/// An answer to a question that is not stored is refused as an internal
/// error, though its identifier is a UUID, and nothing is stored.
pub proof fn theorem_answer_to_unknown_question_fails<Q: QuestionsDao>(
    pre: AppState<Q, AnswersDaoImpl<MemoryStore>>,
    answer: AnswerView,
    post: AppState<Q, AnswersDaoImpl<MemoryStore>>,
    result: Result<AnswerDetailView, HandlerErrorView>,
)
    requires
        answer_creation(pre, answer, post, result),
        answer.content.len() > 0,
        uuid_parse(answer.question_uuid) matches Ok(identifier) && !has_question(
            pre.answers_dao.db@.questions,
            identifier,
        ),
    ensures
        status_of(result) == 500,
        result matches Err(error) && error.message() == "Question not found"@,
        post == pre,
{
}

/// The answers to a question that has none are an empty list, not an
/// error.
pub proof fn theorem_no_answers_are_an_empty_list<Q: QuestionsDao>(
    state: AppState<Q, AnswersDaoImpl<MemoryStore>>,
    question_uuid: Seq<char>,
    result: Result<Seq<AnswerDetailView>, HandlerErrorView>,
)
    requires
        answer_listing(state, question_uuid, result),
        question_uuid.len() > 0,
        uuid_parse(question_uuid) matches Ok(identifier) && !has_answer_to(
            state.answers_dao.db@.answers,
            identifier,
        ),
    ensures
        status_of(result) == 200,
        result matches Ok(details) && details.len() == 0,
{
    let identifier = uuid_parse(question_uuid)->Ok_0;
    lemma_filter_keeps_none(state.answers_dao.db@.answers, answer_to(identifier));
}

/// A question that was created is listed afterwards, last of all: with
/// the title and the description that came in, an identifier in UUID
/// format and a time of creation.
pub proof fn theorem_created_question_is_listed<A: AnswersDao>(
    pre: AppState<QuestionsDaoImpl<MemoryStore>, A>,
    question: QuestionView,
    between: AppState<QuestionsDaoImpl<MemoryStore>, A>,
    created: Result<QuestionDetailView, HandlerErrorView>,
    listed: Result<Seq<QuestionDetailView>, HandlerErrorView>,
)
    requires
        pre.questions_dao.db@.wf(),
        pre.questions_dao.db@.issued < IDENTIFIER_LIMIT,
        question.title.len() > 0,
        question.description.len() > 0,
        question_creation(pre, question, between, created),
        question_listing(between, listed),
    ensures
        status_of(created) == 200,
        status_of(listed) == 200,
        created matches Ok(detail) && listed matches Ok(details) && details.len() > 0
            && details.last() == detail && detail.title == question.title && detail.description
            == question.description && is_uuid(detail.question_uuid) && detail.created_at.len() > 0,
{
}

/// An answer to a stored question is listed afterwards among the answers
/// to that question, last of all: with the content that came in,
/// identifiers in UUID format and a time of creation.
pub proof fn theorem_created_answer_is_listed<Q: QuestionsDao>(
    pre: AppState<Q, AnswersDaoImpl<MemoryStore>>,
    answer: AnswerView,
    between: AppState<Q, AnswersDaoImpl<MemoryStore>>,
    created: Result<AnswerDetailView, HandlerErrorView>,
    listed: Result<Seq<AnswerDetailView>, HandlerErrorView>,
)
    requires
        pre.answers_dao.db@.wf(),
        pre.answers_dao.db@.issued < IDENTIFIER_LIMIT,
        answer.content.len() > 0,
        answer.question_uuid.len() > 0,
        uuid_parse(answer.question_uuid) matches Ok(identifier) && has_question(
            pre.answers_dao.db@.questions,
            identifier,
        ),
        answer_creation(pre, answer, between, created),
        answer_listing(between, answer.question_uuid, listed),
    ensures
        status_of(created) == 200,
        status_of(listed) == 200,
        created matches Ok(detail) && listed matches Ok(details) && details.len() > 0
            && details.last() == detail && detail.content == answer.content && is_uuid(
            detail.answer_uuid,
        ) && is_uuid(detail.question_uuid) && detail.created_at.len() > 0,
{
    let identifier = uuid_parse(answer.question_uuid)->Ok_0;
    let before = pre.answers_dao.db@.answers;
    let after = between.answers_dao.db@.answers;
    lemma_filter_passes_new_row(before, after.last(), answer_to(identifier));
}

/// Selects the questions whose title and description are not empty.
pub open spec fn filled_question() -> spec_fn(QuestionRowView) -> bool {
    |row: QuestionRowView| row.title.len() > 0 && row.description.len() > 0
}

/// Selects the answers whose content is not empty.
pub open spec fn filled_answer() -> spec_fn(AnswerRowView) -> bool {
    |row: AnswerRowView| row.content.len() > 0
}

/// No question with an empty title or description comes into the store
/// through `create_question`.
pub proof fn theorem_no_empty_question_is_stored<A: AnswersDao>(
    pre: AppState<QuestionsDaoImpl<MemoryStore>, A>,
    question: QuestionView,
    post: AppState<QuestionsDaoImpl<MemoryStore>, A>,
    result: Result<QuestionDetailView, HandlerErrorView>,
)
    requires
        every(pre.questions_dao.db@.questions, filled_question()),
        question_creation(pre, question, post, result),
    ensures
        every(post.questions_dao.db@.questions, filled_question()),
{
}

/// `delete_question` leaves the questions that stay as they are, so none
/// has an empty title or description afterwards that had none before.
pub proof fn theorem_deleting_empties_no_question<A: AnswersDao>(
    pre: AppState<QuestionsDaoImpl<MemoryStore>, A>,
    question_uuid: Seq<char>,
    post: AppState<QuestionsDaoImpl<MemoryStore>, A>,
    result: Result<(), HandlerErrorView>,
)
    requires
        every(pre.questions_dao.db@.questions, filled_question()),
        question_deletion(pre, question_uuid, post, result),
    ensures
        every(post.questions_dao.db@.questions, filled_question()),
{
    if question_id_verdict(question_uuid) is Ok {
        let identifier = uuid_parse(question_uuid)->Ok_0;
        lemma_filter_keeps_every(
            pre.questions_dao.db@.questions,
            other_question(identifier),
            filled_question(),
        );
    }
}

/// No answer with an empty content comes into the store through
/// `create_answer`.
pub proof fn theorem_no_empty_answer_is_stored<Q: QuestionsDao>(
    pre: AppState<Q, AnswersDaoImpl<MemoryStore>>,
    answer: AnswerView,
    post: AppState<Q, AnswersDaoImpl<MemoryStore>>,
    result: Result<AnswerDetailView, HandlerErrorView>,
)
    requires
        every(pre.answers_dao.db@.answers, filled_answer()),
        answer_creation(pre, answer, post, result),
    ensures
        every(post.answers_dao.db@.answers, filled_answer()),
{
}

/// `delete_answer` leaves the answers that stay as they are, so none has
/// an empty content afterwards that had none before.
pub proof fn theorem_deleting_empties_no_answer<Q: QuestionsDao>(
    pre: AppState<Q, AnswersDaoImpl<MemoryStore>>,
    answer_uuid: Seq<char>,
    post: AppState<Q, AnswersDaoImpl<MemoryStore>>,
    result: Result<(), HandlerErrorView>,
)
    requires
        every(pre.answers_dao.db@.answers, filled_answer()),
        answer_deletion(pre, answer_uuid, post, result),
    ensures
        every(post.answers_dao.db@.answers, filled_answer()),
{
    if answer_id_verdict(answer_uuid) is Ok {
        let identifier = uuid_parse(answer_uuid)->Ok_0;
        lemma_filter_keeps_every(
            pre.answers_dao.db@.answers,
            other_answer(identifier),
            filled_answer(),
        );
    }
}

} // verus!
