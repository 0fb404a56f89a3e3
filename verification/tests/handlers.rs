use qa_service::handlers::handlers_inner::{
    require_uuid, respond, response_status, validate_answer, validate_answer_id,
    validate_question, validate_question_id, HandlerError,
};
use qa_service::handlers::{
    create_answer, create_question, delete_answer, delete_question, read_answers, read_questions,
};
use qa_service::models::{Answer, AnswerId, DBError, Question, QuestionId};
use qa_service::persistance::database::Database;
use qa_service::persistance::answers_dao::AnswersDaoImpl;
use qa_service::persistance::memory_store::MemoryStore;
use qa_service::persistance::questions_dao::{to_question_detail, QuestionsDaoImpl};
use qa_service::AppState;

type State = AppState<QuestionsDaoImpl<MemoryStore>, AnswersDaoImpl<MemoryStore>>;

const UNKNOWN: &str = "550e8400-e29b-41d4-a716-446655440000";

fn empty_state() -> State {
    AppState {
        questions_dao: QuestionsDaoImpl::new(MemoryStore::new()),
        answers_dao: AnswersDaoImpl::new(MemoryStore::new()),
    }
}

fn question(title: &str, description: &str) -> Question {
    Question { title: title.to_string(), description: description.to_string() }
}

fn answer(question_uuid: &str, content: &str) -> Answer {
    Answer { question_uuid: question_uuid.to_string(), content: content.to_string() }
}

fn question_id(text: &str) -> QuestionId {
    QuestionId { question_uuid: text.to_string() }
}

fn answer_id(text: &str) -> AnswerId {
    AnswerId { answer_uuid: text.to_string() }
}

#[test]
fn create_question_without_title_is_bad_request() {
    let mut state = empty_state();
    let error = create_question(&mut state, question("", "D")).unwrap_err();
    assert_eq!(error, HandlerError::BadRequest("Title is required".to_string()));
    assert_eq!(error.status_code(), 400);
    assert_eq!(read_questions(&state).unwrap().len(), 0);
}

#[test]
fn create_question_without_description_is_bad_request() {
    let mut state = empty_state();
    let error = create_question(&mut state, question("T", "")).unwrap_err();
    assert_eq!(error, HandlerError::BadRequest("Description is required".to_string()));
    assert_eq!(error.status_code(), 400);
    assert_eq!(read_questions(&state).unwrap().len(), 0);
}

#[test]
fn create_question_with_both_fields_empty_complains_of_the_title() {
    let mut state = empty_state();
    let error = create_question(&mut state, question("", "")).unwrap_err();
    assert_eq!(error, HandlerError::BadRequest("Title is required".to_string()));
}

#[test]
fn create_answer_without_content_is_bad_request() {
    let mut state = empty_state();
    let error = create_answer(&mut state, answer(UNKNOWN, "")).unwrap_err();
    assert_eq!(error, HandlerError::BadRequest("Content is required".to_string()));
    assert_eq!(error.status_code(), 400);
}

#[test]
fn create_answer_without_content_and_uuid_complains_of_the_content() {
    let mut state = empty_state();
    let error = create_answer(&mut state, answer("not-a-uuid", "")).unwrap_err();
    assert_eq!(error, HandlerError::BadRequest("Content is required".to_string()));
}

#[test]
fn create_answer_for_malformed_question_is_bad_request() {
    let mut state = empty_state();
    let error = create_answer(&mut state, answer("not-a-uuid", "hi")).unwrap_err();
    assert_eq!(error, HandlerError::BadRequest("Invalid question UUID".to_string()));
    assert_eq!(error.status_code(), 400);
}

#[test]
fn create_answer_with_empty_question_uuid_is_invalid_not_missing() {
    let mut state = empty_state();
    let error = create_answer(&mut state, answer("", "hi")).unwrap_err();
    assert_eq!(error, HandlerError::BadRequest("Invalid question UUID".to_string()));
}

#[test]
fn create_answer_for_unknown_question_is_internal_error() {
    let mut state = empty_state();
    let error = create_answer(&mut state, answer(UNKNOWN, "hi")).unwrap_err();
    assert_eq!(error, HandlerError::InternalError("Question not found".to_string()));
    assert_eq!(error.status_code(), 500);
}

#[test]
fn delete_question_with_empty_uuid_is_bad_request() {
    let mut state = empty_state();
    let error = delete_question(&mut state, question_id("")).unwrap_err();
    assert_eq!(error, HandlerError::BadRequest("Question UUID is required".to_string()));
    assert_eq!(error.status_code(), 400);
}

#[test]
fn delete_question_with_malformed_uuid_is_bad_request() {
    let mut state = empty_state();
    let error = delete_question(&mut state, question_id("not-a-uuid")).unwrap_err();
    assert_eq!(error, HandlerError::BadRequest("Invalid question UUID".to_string()));
    assert_eq!(error.status_code(), 400);
}

#[test]
fn delete_answer_with_empty_uuid_is_bad_request() {
    let mut state = empty_state();
    let error = delete_answer(&mut state, answer_id("")).unwrap_err();
    assert_eq!(error, HandlerError::BadRequest("Answer UUID is required".to_string()));
    assert_eq!(error.status_code(), 400);
}

#[test]
fn delete_answer_with_malformed_uuid_is_bad_request() {
    let mut state = empty_state();
    let error = delete_answer(&mut state, answer_id("550e8400-e29b-41d4-a716-44665544000g")).unwrap_err();
    assert_eq!(error, HandlerError::BadRequest("Invalid answer UUID".to_string()));
    assert_eq!(error.status_code(), 400);
}

#[test]
fn read_answers_with_empty_uuid_is_bad_request() {
    let state = empty_state();
    let error = read_answers(&state, question_id("")).unwrap_err();
    assert_eq!(error, HandlerError::BadRequest("Question UUID is required".to_string()));
    assert_eq!(error.status_code(), 400);
}

#[test]
fn read_answers_with_malformed_uuid_is_bad_request() {
    let state = empty_state();
    let error = read_answers(&state, question_id("12345")).unwrap_err();
    assert_eq!(error, HandlerError::BadRequest("Invalid question UUID".to_string()));
    assert_eq!(error.status_code(), 400);
}

#[test]
fn delete_unknown_question_succeeds() {
    let mut state = empty_state();
    assert_eq!(delete_question(&mut state, question_id(UNKNOWN)), Ok(()));
}

#[test]
fn delete_unknown_answer_succeeds() {
    let mut state = empty_state();
    assert_eq!(delete_answer(&mut state, answer_id(UNKNOWN)), Ok(()));
}

#[test]
fn delete_question_twice_succeeds_both_times() {
    let mut state = empty_state();
    let created = create_question(&mut state, question("T", "D")).unwrap();
    assert_eq!(delete_question(&mut state, question_id(&created.question_uuid)), Ok(()));
    assert_eq!(read_questions(&state).unwrap().len(), 0);
    assert_eq!(delete_question(&mut state, question_id(&created.question_uuid)), Ok(()));
}

#[test]
fn read_answers_of_question_without_answers_is_empty() {
    let state = empty_state();
    assert_eq!(read_answers(&state, question_id(UNKNOWN)), Ok(vec![]));
}

#[test]
fn read_questions_of_empty_store_is_empty() {
    let state = empty_state();
    assert_eq!(read_questions(&state), Ok(vec![]));
}

#[test]
fn created_question_is_read_back() {
    let mut state = empty_state();
    let created = create_question(&mut state, question("T", "D")).unwrap();
    assert_eq!(created.title, "T");
    assert_eq!(created.description, "D");
    assert_eq!(created.question_uuid, "00000000-0000-4000-8000-000000000000");
    assert_eq!(created.created_at, "1970-01-01 00:00:00");
    let listed = read_questions(&state).unwrap();
    assert_eq!(listed, vec![created.clone()]);
    // the identifier that went out is accepted when it comes back
    assert_eq!(delete_question(&mut state, question_id(&created.question_uuid)), Ok(()));
}

#[test]
fn questions_are_listed_in_the_order_of_creation() {
    let mut state = empty_state();
    let first = create_question(&mut state, question("one", "1")).unwrap();
    let second = create_question(&mut state, question("two", "2")).unwrap();
    assert_eq!(second.question_uuid, "00000000-0000-4000-8000-000000000001");
    assert_eq!(read_questions(&state), Ok(vec![first.clone(), second.clone()]));
    assert_eq!(delete_question(&mut state, question_id(&first.question_uuid)), Ok(()));
    assert_eq!(read_questions(&state), Ok(vec![second]));
}

#[test]
fn answer_to_a_stored_question_is_read_back() {
    // the answers component works on a store that holds the question
    let mut store = MemoryStore::new();
    let asked = store.insert_question("T".to_string(), "D".to_string()).unwrap();
    let question_uuid = to_question_detail(&asked).question_uuid;
    assert_eq!(question_uuid, "00000000-0000-4000-8000-000000000000");
    let mut state = AppState {
        questions_dao: QuestionsDaoImpl::new(MemoryStore::new()),
        answers_dao: AnswersDaoImpl::new(store),
    };

    let created = create_answer(&mut state, answer(&question_uuid, "hi")).unwrap();
    assert_eq!(created.answer_uuid, "00000000-0000-4000-8000-000000000001");
    assert_eq!(created.question_uuid, question_uuid);
    assert_eq!(created.content, "hi");
    assert_eq!(created.created_at, "1970-01-01 00:00:00");
    assert_eq!(read_answers(&state, question_id(&question_uuid)), Ok(vec![created.clone()]));
    assert_eq!(read_answers(&state, question_id(UNKNOWN)), Ok(vec![]));

    assert_eq!(delete_answer(&mut state, answer_id(&created.answer_uuid)), Ok(()));
    assert_eq!(read_answers(&state, question_id(&question_uuid)), Ok(vec![]));
    assert_eq!(delete_answer(&mut state, answer_id(&created.answer_uuid)), Ok(()));
}

#[test]
fn handlers_take_every_form_of_uuid_that_the_parser_takes() {
    let mut state = empty_state();
    assert_eq!(delete_question(&mut state, question_id("550E8400-E29B-41D4-A716-446655440000")), Ok(()));
    assert_eq!(delete_question(&mut state, question_id("550e8400e29b41d4a716446655440000")), Ok(()));
    assert_eq!(delete_answer(&mut state, answer_id("{550e8400-e29b-41d4-a716-446655440000}")), Ok(()));
    assert_eq!(
        read_answers(&state, question_id("urn:uuid:550e8400-e29b-41d4-a716-446655440000")),
        Ok(vec![])
    );
}

#[test]
fn rejected_request_leaves_the_store_as_it_was() {
    let mut state = empty_state();
    let kept = create_question(&mut state, question("T", "D")).unwrap();
    assert!(create_question(&mut state, question("", "D")).is_err());
    assert!(create_question(&mut state, question("T", "")).is_err());
    assert!(delete_question(&mut state, question_id("")).is_err());
    assert!(delete_question(&mut state, question_id("not-a-uuid")).is_err());
    assert_eq!(read_questions(&state), Ok(vec![kept]));
}

#[test]
fn response_status_of_each_outcome() {
    let mut state = empty_state();
    let created = create_question(&mut state, question("T", "D"));
    assert_eq!(response_status(&created), 200);
    assert_eq!(response_status(&read_questions(&state)), 200);
    assert_eq!(response_status(&read_answers(&state, question_id(UNKNOWN))), 200);
    assert_eq!(response_status(&delete_question(&mut state, question_id(UNKNOWN))), 200);
    assert_eq!(response_status(&create_question(&mut state, question("", "D"))), 400);
    assert_eq!(response_status(&create_answer(&mut state, answer("not-a-uuid", "hi"))), 400);
    assert_eq!(response_status(&create_answer(&mut state, answer(UNKNOWN, "hi"))), 500);
}

#[test]
fn handler_error_gives_status_and_message() {
    let bad = HandlerError::BadRequest("Title is required".to_string());
    assert_eq!(bad.status_code(), 400);
    assert_eq!(bad.into_message(), "Title is required");
    let internal = HandlerError::InternalError("Question not found".to_string());
    assert_eq!(internal.status_code(), 500);
    assert_eq!(internal.into_message(), "Question not found");
}

#[test]
fn respond_passes_the_payload_and_wraps_the_error() {
    assert_eq!(respond(Ok::<u64, DBError>(7)), Ok(7));
    assert_eq!(
        respond::<u64>(Err(DBError::InvalidUUID("Question not found".to_string()))),
        Err(HandlerError::InternalError("Question not found".to_string()))
    );
    assert_eq!(
        respond::<u64>(Err(DBError::Other("connection refused".to_string()))),
        Err(HandlerError::InternalError("connection refused".to_string()))
    );
}

#[test]
fn require_uuid_goes_by_the_parser() {
    assert_eq!(require_uuid(&Ok(1), "Invalid question UUID"), Ok(()));
    assert_eq!(
        require_uuid(&Err("invalid length: found 5".to_string()), "Invalid question UUID"),
        Err(HandlerError::BadRequest("Invalid question UUID".to_string()))
    );
}

#[test]
fn validation_checks_in_order() {
    assert_eq!(validate_question(&question("T", "D")), Ok(()));
    assert_eq!(
        validate_question(&question("", "")),
        Err(HandlerError::BadRequest("Title is required".to_string()))
    );
    assert_eq!(validate_answer(&answer(UNKNOWN, "hi")), Ok(()));
    assert_eq!(
        validate_answer(&answer("", "")),
        Err(HandlerError::BadRequest("Content is required".to_string()))
    );
    assert_eq!(validate_question_id(&question_id(UNKNOWN)), Ok(()));
    assert_eq!(
        validate_question_id(&question_id("")),
        Err(HandlerError::BadRequest("Question UUID is required".to_string()))
    );
    assert_eq!(validate_answer_id(&answer_id(UNKNOWN)), Ok(()));
    assert_eq!(
        validate_answer_id(&answer_id("x")),
        Err(HandlerError::BadRequest("Invalid answer UUID".to_string()))
    );
}
