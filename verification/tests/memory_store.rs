use qa_service::persistance::database::{AnswerRow, Database, QuestionRow, StoreError};
use qa_service::persistance::memory_store::{MemoryStore, EPOCH, FIRST_IDENTIFIER, IDENTIFIER_LIMIT};

fn text(value: &str) -> String {
    value.to_string()
}

fn store_with_question() -> (MemoryStore, QuestionRow) {
    let mut store = MemoryStore::new();
    let row = store.insert_question(text("T"), text("D")).unwrap();
    (store, row)
}

#[test]
fn constants_of_the_store() {
    assert_eq!(FIRST_IDENTIFIER, 0x0000_0000_0000_4000_8000_0000_0000_0000);
    assert_eq!(IDENTIFIER_LIMIT, 1u64 << 62);
    assert_eq!(EPOCH, "1970-01-01 00:00:00");
}

#[test]
fn new_store_is_empty() {
    let store = MemoryStore::new();
    assert_eq!(store.select_questions(), Ok(vec![]));
    assert_eq!(store.select_answers(FIRST_IDENTIFIER), Ok(vec![]));
}

#[test]
fn inserted_question_gets_identifier_and_time() {
    let (store, row) = store_with_question();
    assert_eq!(
        row,
        QuestionRow {
            question_uuid: FIRST_IDENTIFIER,
            title: text("T"),
            description: text("D"),
            created_at: text("1970-01-01 00:00:00"),
        }
    );
    assert_eq!(store.select_questions(), Ok(vec![row]));
}

#[test]
fn store_takes_empty_fields_as_they_are() {
    let mut store = MemoryStore::new();
    let row = store.insert_question(text(""), text("")).unwrap();
    assert_eq!(row.title, "");
    assert_eq!(row.description, "");
}

#[test]
fn identifiers_are_shared_between_the_tables() {
    let (mut store, question) = store_with_question();
    let answer = store.insert_answer(question.question_uuid, text("hi")).unwrap();
    assert_eq!(
        answer,
        AnswerRow {
            answer_uuid: FIRST_IDENTIFIER + 1,
            question_uuid: FIRST_IDENTIFIER,
            content: text("hi"),
            created_at: text("1970-01-01 00:00:00"),
        }
    );
    let next = store.insert_question(text("T2"), text("D2")).unwrap();
    assert_eq!(next.question_uuid, FIRST_IDENTIFIER + 2);
}

#[test]
fn answer_to_missing_question_breaks_the_foreign_key() {
    let mut store = MemoryStore::new();
    assert_eq!(
        store.insert_answer(FIRST_IDENTIFIER, text("hi")),
        Err(StoreError {
            code: Some(text("23503")),
            message: text("insert on table \"answers\" violates foreign key constraint"),
        })
    );
    assert_eq!(store.select_answers(FIRST_IDENTIFIER), Ok(vec![]));
    // the refused insert took no identifier
    let row = store.insert_question(text("T"), text("D")).unwrap();
    assert_eq!(row.question_uuid, FIRST_IDENTIFIER);
}

#[test]
fn answer_to_deleted_question_breaks_the_foreign_key() {
    let (mut store, question) = store_with_question();
    assert_eq!(store.delete_question(question.question_uuid), Ok(1));
    assert!(store.insert_answer(question.question_uuid, text("hi")).is_err());
}

#[test]
fn delete_counts_the_rows_that_went() {
    let (mut store, question) = store_with_question();
    assert_eq!(store.delete_question(question.question_uuid + 1), Ok(0));
    assert_eq!(store.select_questions(), Ok(vec![question.clone()]));
    assert_eq!(store.delete_question(question.question_uuid), Ok(1));
    assert_eq!(store.select_questions(), Ok(vec![]));
    assert_eq!(store.delete_question(question.question_uuid), Ok(0));
}

#[test]
fn delete_keeps_the_other_rows_in_order() {
    let mut store = MemoryStore::new();
    let first = store.insert_question(text("1"), text("a")).unwrap();
    let second = store.insert_question(text("2"), text("b")).unwrap();
    let third = store.insert_question(text("3"), text("c")).unwrap();
    assert_eq!(store.delete_question(second.question_uuid), Ok(1));
    assert_eq!(store.select_questions(), Ok(vec![first, third]));
}

#[test]
fn deleting_a_question_leaves_its_answers() {
    let (mut store, question) = store_with_question();
    let answer = store.insert_answer(question.question_uuid, text("hi")).unwrap();
    assert_eq!(store.delete_question(question.question_uuid), Ok(1));
    assert_eq!(store.select_answers(question.question_uuid), Ok(vec![answer]));
}

#[test]
fn answers_are_selected_by_question() {
    let mut store = MemoryStore::new();
    let one = store.insert_question(text("1"), text("a")).unwrap();
    let two = store.insert_question(text("2"), text("b")).unwrap();
    let first = store.insert_answer(one.question_uuid, text("to one")).unwrap();
    let second = store.insert_answer(two.question_uuid, text("to two")).unwrap();
    let third = store.insert_answer(one.question_uuid, text("to one again")).unwrap();
    assert_eq!(store.select_answers(one.question_uuid), Ok(vec![first, third]));
    assert_eq!(store.select_answers(two.question_uuid), Ok(vec![second]));
    assert_eq!(store.select_answers(two.question_uuid + 100), Ok(vec![]));
}

#[test]
fn delete_answer_counts_and_keeps_the_others() {
    let (mut store, question) = store_with_question();
    let first = store.insert_answer(question.question_uuid, text("a")).unwrap();
    let second = store.insert_answer(question.question_uuid, text("b")).unwrap();
    assert_eq!(store.delete_answer(first.answer_uuid), Ok(1));
    assert_eq!(store.delete_answer(first.answer_uuid), Ok(0));
    assert_eq!(store.select_answers(question.question_uuid), Ok(vec![second]));
    assert_eq!(store.select_questions(), Ok(vec![question]));
}

#[test]
fn deleting_an_answer_by_a_question_identifier_removes_nothing() {
    let (mut store, question) = store_with_question();
    let answer = store.insert_answer(question.question_uuid, text("a")).unwrap();
    assert_eq!(store.delete_answer(question.question_uuid), Ok(0));
    assert_eq!(store.select_answers(question.question_uuid), Ok(vec![answer]));
}

#[test]
fn clock_stamps_the_rows_that_come_after() {
    let (mut store, early) = store_with_question();
    assert!(store.set_clock(text("2024-05-06 07:08:09")));
    let late = store.insert_question(text("T2"), text("D2")).unwrap();
    assert_eq!(late.created_at, "2024-05-06 07:08:09");
    let answer = store.insert_answer(early.question_uuid, text("hi")).unwrap();
    assert_eq!(answer.created_at, "2024-05-06 07:08:09");
    // the time of a stored row stays
    assert_eq!(store.select_questions(), Ok(vec![early, late]));
}

#[test]
fn clock_refuses_an_empty_time() {
    let mut store = MemoryStore::new();
    assert!(!store.set_clock(text("")));
    let row = store.insert_question(text("T"), text("D")).unwrap();
    assert_eq!(row.created_at, "1970-01-01 00:00:00");
}
