//! Identifiers as text: what the UUID parser makes of a text, and the text
//! that a UUID is written as.

use crate::models::outcome_view;
use vstd::arithmetic::power::pow;
use vstd::prelude::*;

verus! {

/// What `Uuid::parse_str` makes of a text: the 128-bit value of the UUID that
/// it reads, or else the message of the error that it reports.
pub uninterp spec fn uuid_parse(text: Seq<char>) -> Result<u128, Seq<char>>;

/// A text is in UUID format when the parser accepts it.
pub open spec fn is_uuid(text: Seq<char>) -> bool {
    uuid_parse(text) is Ok
}

/// The sixteen hexadecimal digits, lower case.
pub open spec fn hex_digits() -> Seq<char> {
    seq!['0', '1', '2', '3', '4', '5', '6', '7', '8', '9', 'a', 'b', 'c', 'd', 'e', 'f']
}

/// The hexadecimal digit of `value` at `place`, counted from the most
/// significant of its thirty-two.
pub open spec fn hex_digit_at(value: u128, place: int) -> char {
    hex_digits()[(value as int / pow(16, (31 - place) as nat)) % 16]
}

/// Which hexadecimal digit stands at `index` of the hyphenated form: the
/// groups hold 8, 4, 4, 4 and 12 digits, with a hyphen after each but the last.
pub open spec fn digit_place(index: int) -> int {
    if index < 8 {
        index
    } else if index < 13 {
        index - 1
    } else if index < 18 {
        index - 2
    } else if index < 23 {
        index - 3
    } else {
        index - 4
    }
}

/// The canonical text of a UUID: thirty-six characters, lower-case
/// hexadecimal digits in groups of 8, 4, 4, 4 and 12 with hyphens between.
pub open spec fn hyphenated(value: u128) -> Seq<char> {
    Seq::new(
        36,
        |index: int|
            if index == 8 || index == 13 || index == 18 || index == 23 {
                '-'
            } else {
                hex_digit_at(value, digit_place(index))
            },
    )
}

/// Calls `Uuid::parse_str` of the uuid crate, as sqlx hands it on. The
/// contract gives the outcome its name: an accepted text comes back as the
/// UUID's 128-bit value, a refused one as the text of the parser's error.
#[verifier::external_body]
pub(crate) fn parse_uuid(text: &str) -> (parsed: Result<u128, String>)
    ensures
        outcome_view(parsed) == uuid_parse(text@),
{
    match sqlx::types::Uuid::parse_str(text) {
        Ok(uuid) => Ok(uuid.as_u128()),
        Err(error) => Err(error.to_string()),
    }
}

/// Calls `Uuid::from_u128` and the `Display` of the result. The contract
/// claims that the text is the hyphenated lower-case form, and that the
/// parser reads the same UUID back from it.
#[verifier::external_body]
pub(crate) fn uuid_text(value: u128) -> (text: String)
    ensures
        text@ == hyphenated(value),
        uuid_parse(text@) is Ok,
        uuid_parse(text@)->Ok_0 == value,
{
    sqlx::types::Uuid::from_u128(value).to_string()
}

} // verus!
