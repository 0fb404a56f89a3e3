//! Data access: the two components, the store they work on, and the
//! reading of identifiers that they share.

use crate::identifier::{parse_uuid, uuid_parse};
use crate::models::{outcome_view, DBError, DBErrorView};
use vstd::prelude::*;

pub mod answers_dao;
pub mod database;
pub mod memory_store;
pub mod questions_dao;

verus! {

/// What data access makes of an identifier once the parser has spoken: the
/// UUID, or the parser's complaint as an `InvalidUUID`.
pub open spec fn parsed_identifier(parsed: Result<u128, Seq<char>>) -> Result<u128, DBErrorView> {
    match parsed {
        Ok(value) => Ok(value),
        Err(message) => Err(DBErrorView::InvalidUUID(message)),
    }
}

/// Turns the parser's outcome into the data access layer's own terms.
pub fn identifier_from(parsed: Result<u128, String>) -> (identifier: Result<u128, DBError>)
    ensures
        outcome_view(identifier) == parsed_identifier(outcome_view(parsed)),
{
    match parsed {
        Ok(value) => Ok(value),
        Err(message) => Err(DBError::InvalidUUID(message)),
    }
}

/// Reads an identifier that a caller supplied as text.
pub fn read_identifier(text: &str) -> (identifier: Result<u128, DBError>)
    ensures
        outcome_view(identifier) == parsed_identifier(uuid_parse(text@)),
{
    identifier_from(parse_uuid(text))
}

} // verus!
