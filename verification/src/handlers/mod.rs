//! The request handlers: one per endpoint. Each checks the request, asks
//! data access once and turns the result into what goes out.

use crate::handlers::handlers_inner::{
    answer_id_verdict, answer_verdict, question_id_verdict, question_verdict, respond, response,
    status_of, validate_answer, validate_answer_id, validate_question, validate_question_id,
    HandlerError, HandlerErrorView,
};
use crate::identifier::is_uuid;
use crate::models::{
    outcome_view, Answer, AnswerDetail, AnswerDetailView, AnswerId, AnswerView, DBErrorView,
    Question, QuestionDetail, QuestionDetailView, QuestionId, QuestionView,
};
use crate::persistance::answers_dao::AnswersDao;
use crate::persistance::questions_dao::QuestionsDao;
use crate::AppState;
use vstd::prelude::*;

pub mod handlers_inner;

verus! {

/// What `create_question` may do: a question with an empty field is
/// refused and data access is left alone; any other goes to data access
/// once, whose result decides.
pub open spec fn question_creation<Q: QuestionsDao, A: AnswersDao>(
    pre: AppState<Q, A>,
    question: QuestionView,
    post: AppState<Q, A>,
    result: Result<QuestionDetailView, HandlerErrorView>,
) -> bool {
    &&& post.answers_dao == pre.answers_dao
    &&& match question_verdict(question) {
        Err(error) => post == pre && result == Err::<QuestionDetailView, HandlerErrorView>(error),
        Ok(_) => exists|outcome: Result<QuestionDetailView, DBErrorView>|
            #[trigger] Q::creates_question(
                pre.questions_dao,
                question,
                post.questions_dao,
                outcome,
            ) && result == response(outcome),
    }
}

/// What `read_questions` may do: data access is asked once, and its
/// result decides.
pub open spec fn question_listing<Q: QuestionsDao, A: AnswersDao>(
    state: AppState<Q, A>,
    result: Result<Seq<QuestionDetailView>, HandlerErrorView>,
) -> bool {
    exists|outcome: Result<Seq<QuestionDetailView>, DBErrorView>|
        #[trigger] Q::gets_questions(state.questions_dao, outcome) && result == response(outcome)
}

/// What `delete_question` may do: an identifier that is empty or no UUID
/// is refused and data access is left alone; any other goes to data
/// access once, whose result decides.
pub open spec fn question_deletion<Q: QuestionsDao, A: AnswersDao>(
    pre: AppState<Q, A>,
    question_uuid: Seq<char>,
    post: AppState<Q, A>,
    result: Result<(), HandlerErrorView>,
) -> bool {
    &&& post.answers_dao == pre.answers_dao
    &&& match question_id_verdict(question_uuid) {
        Err(error) => post == pre && result == Err::<(), HandlerErrorView>(error),
        Ok(_) => exists|outcome: Result<(), DBErrorView>|
            #[trigger] Q::deletes_question(
                pre.questions_dao,
                question_uuid,
                post.questions_dao,
                outcome,
            ) && result == response(outcome),
    }
}

/// What `create_answer` may do: an answer without content, or for a
/// question whose identifier is no UUID, is refused and data access is
/// left alone; any other goes to data access once, whose result decides.
pub open spec fn answer_creation<Q: QuestionsDao, A: AnswersDao>(
    pre: AppState<Q, A>,
    answer: AnswerView,
    post: AppState<Q, A>,
    result: Result<AnswerDetailView, HandlerErrorView>,
) -> bool {
    &&& post.questions_dao == pre.questions_dao
    &&& match answer_verdict(answer) {
        Err(error) => post == pre && result == Err::<AnswerDetailView, HandlerErrorView>(error),
        Ok(_) => exists|outcome: Result<AnswerDetailView, DBErrorView>|
            #[trigger] A::creates_answer(pre.answers_dao, answer, post.answers_dao, outcome)
                && result == response(outcome),
    }
}

/// What `read_answers` may do: an identifier that is empty or no UUID is
/// refused; any other goes to data access once, whose result decides.
pub open spec fn answer_listing<Q: QuestionsDao, A: AnswersDao>(
    state: AppState<Q, A>,
    question_uuid: Seq<char>,
    result: Result<Seq<AnswerDetailView>, HandlerErrorView>,
) -> bool {
    match question_id_verdict(question_uuid) {
        Err(error) => result == Err::<Seq<AnswerDetailView>, HandlerErrorView>(error),
        Ok(_) => exists|outcome: Result<Seq<AnswerDetailView>, DBErrorView>|
            #[trigger] A::gets_answers(state.answers_dao, question_uuid, outcome) && result
                == response(outcome),
    }
}

/// What `delete_answer` may do: an identifier that is empty or no UUID is
/// refused and data access is left alone; any other goes to data access
/// once, whose result decides.
pub open spec fn answer_deletion<Q: QuestionsDao, A: AnswersDao>(
    pre: AppState<Q, A>,
    answer_uuid: Seq<char>,
    post: AppState<Q, A>,
    result: Result<(), HandlerErrorView>,
) -> bool {
    &&& post.questions_dao == pre.questions_dao
    &&& match answer_id_verdict(answer_uuid) {
        Err(error) => post == pre && result == Err::<(), HandlerErrorView>(error),
        Ok(_) => exists|outcome: Result<(), DBErrorView>|
            #[trigger] A::deletes_answer(pre.answers_dao, answer_uuid, post.answers_dao, outcome)
                && result == response(outcome),
    }
}

/// `POST /question`: stores a question and answers with what was stored.
pub fn create_question<Q: QuestionsDao, A: AnswersDao>(
    state: &mut AppState<Q, A>,
    question: Question,
) -> (result: Result<QuestionDetail, HandlerError>)
    ensures
        question_creation(*old(state), question@, *final(state), outcome_view(result)),
        question@.title.len() == 0 || question@.description.len() == 0 <==> status_of(
            outcome_view(result),
        ) == 400,
        status_of(outcome_view(result)) == 400 ==> *final(state) == *old(state),
{
    let ghost request = question@;
    match validate_question(&question) {
        Err(error) => Err(error),
        Ok(_) => {
            let ghost before = state.questions_dao;
            let outcome = state.questions_dao.create_question(question);
            assert(Q::creates_question(
                before,
                request,
                state.questions_dao,
                outcome_view(outcome),
            ));
            respond(outcome)
        },
    }
}

/// `GET /questions`: answers with every stored question.
pub fn read_questions<Q: QuestionsDao, A: AnswersDao>(state: &AppState<Q, A>) -> (result: Result<
    Vec<QuestionDetail>,
    HandlerError,
>)
    ensures
        question_listing(*state, outcome_view(result)),
        status_of(outcome_view(result)) != 400,
{
    let outcome = state.questions_dao.get_questions();
    assert(Q::gets_questions(state.questions_dao, outcome_view(outcome)));
    respond(outcome)
}

/// `DELETE /question`: removes the question with the given identifier, if
/// there is one.
pub fn delete_question<Q: QuestionsDao, A: AnswersDao>(
    state: &mut AppState<Q, A>,
    question_uuid: QuestionId,
) -> (result: Result<(), HandlerError>)
    ensures
        question_deletion(*old(state), question_uuid@, *final(state), outcome_view(result)),
        question_uuid@.len() == 0 || !is_uuid(question_uuid@) <==> status_of(outcome_view(result))
            == 400,
        status_of(outcome_view(result)) == 400 ==> *final(state) == *old(state),
{
    let ghost request = question_uuid@;
    match validate_question_id(&question_uuid) {
        Err(error) => Err(error),
        Ok(_) => {
            let ghost before = state.questions_dao;
            let outcome = state.questions_dao.delete_question(question_uuid.question_uuid);
            assert(Q::deletes_question(
                before,
                request,
                state.questions_dao,
                outcome_view(outcome),
            ));
            respond(outcome)
        },
    }
}

/// `POST /answer`: stores an answer to a question and answers with what
/// was stored.
pub fn create_answer<Q: QuestionsDao, A: AnswersDao>(
    state: &mut AppState<Q, A>,
    answer: Answer,
) -> (result: Result<AnswerDetail, HandlerError>)
    ensures
        answer_creation(*old(state), answer@, *final(state), outcome_view(result)),
        answer@.content.len() == 0 || !is_uuid(answer@.question_uuid) <==> status_of(
            outcome_view(result),
        ) == 400,
        status_of(outcome_view(result)) == 400 ==> *final(state) == *old(state),
{
    let ghost request = answer@;
    match validate_answer(&answer) {
        Err(error) => Err(error),
        Ok(_) => {
            let ghost before = state.answers_dao;
            let outcome = state.answers_dao.create_answer(answer);
            assert(A::creates_answer(before, request, state.answers_dao, outcome_view(outcome)));
            respond(outcome)
        },
    }
}

/// `GET /answers`: answers with the stored answers to one question.
pub fn read_answers<Q: QuestionsDao, A: AnswersDao>(
    state: &AppState<Q, A>,
    question_uuid: QuestionId,
) -> (result: Result<Vec<AnswerDetail>, HandlerError>)
    ensures
        answer_listing(*state, question_uuid@, outcome_view(result)),
        question_uuid@.len() == 0 || !is_uuid(question_uuid@) <==> status_of(outcome_view(result))
            == 400,
{
    let ghost request = question_uuid@;
    match validate_question_id(&question_uuid) {
        Err(error) => Err(error),
        Ok(_) => {
            let outcome = state.answers_dao.get_answers(question_uuid.question_uuid);
            assert(A::gets_answers(state.answers_dao, request, outcome_view(outcome)));
            respond(outcome)
        },
    }
}

/// `DELETE /answer`: removes the answer with the given identifier, if
/// there is one.
pub fn delete_answer<Q: QuestionsDao, A: AnswersDao>(
    state: &mut AppState<Q, A>,
    answer_uuid: AnswerId,
) -> (result: Result<(), HandlerError>)
    ensures
        answer_deletion(*old(state), answer_uuid@, *final(state), outcome_view(result)),
        answer_uuid@.len() == 0 || !is_uuid(answer_uuid@) <==> status_of(outcome_view(result))
            == 400,
        status_of(outcome_view(result)) == 400 ==> *final(state) == *old(state),
{
    let ghost request = answer_uuid@;
    match validate_answer_id(&answer_uuid) {
        Err(error) => Err(error),
        Ok(_) => {
            let ghost before = state.answers_dao;
            let outcome = state.answers_dao.delete_answer(answer_uuid.answer_uuid);
            assert(A::deletes_answer(before, request, state.answers_dao, outcome_view(outcome)));
            respond(outcome)
        },
    }
}

} // verus!
