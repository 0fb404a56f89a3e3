//! A question-and-answer service: request handlers over two data access
//! components, which keep questions and their answers in a relational
//! store.
//!
//! A handler checks what came in, asks data access once and turns the
//! result into what goes out. Data access reads identifiers, sends one
//! statement to the store and classifies what comes back. The store is
//! anything that carries out the six statements of [`persistance::database::Database`];
//! [`persistance::memory_store::MemoryStore`] is one that lives in memory.

use vstd::prelude::*;

pub mod handlers;
pub mod identifier;
pub mod models;
pub mod persistance;
pub mod service;

verus! {

/// What every request handler works on: the two data access components.
///
/// Each component works on the store that it was built on. Components
/// built on handles of one database share what it holds; components built
/// on two stores in memory do not.
#[derive(Clone)]
pub struct AppState<Q: persistance::questions_dao::QuestionsDao, A: persistance::answers_dao::AnswersDao> {
    pub questions_dao: Q,
    pub answers_dao: A,
}

} // verus!
