//! The stored history.

use vstd::prelude::*;

verus! {

/// A calendar date with a time of day, without a time zone. Nothing inside
/// it is visible to the verifier.
#[verifier::external_type_specification]
#[verifier::external_body]
pub struct ExNaiveDateTime(chrono::NaiveDateTime);

/// One entry of the history: a word, and when it was looked up.
#[derive(Debug)]
pub struct History {
    pub id: i32,
    pub word: String,
    pub created_at: chrono::NaiveDateTime,
}

/// The text that `NaiveDateTime::format` gives for a date and time with the
/// pattern `%Y-%m-%d %H:%M:%S`.
pub uninterp spec fn created_at_text(at: chrono::NaiveDateTime) -> Seq<char>;

/// `NaiveDateTime::format` with the pattern `%Y-%m-%d %H:%M:%S`, rendered:
/// year, month and day, then hour, minute and second. The pattern holds no
/// item that depends on a locale or a time zone, so the text is the one named
/// by [`created_at_text`].
#[verifier::external_body]
pub(crate) fn format_created_at(at: &chrono::NaiveDateTime) -> (text: String)
    ensures
        text@ == created_at_text(*at),
{
    at.format("%Y-%m-%d %H:%M:%S").to_string()
}

} // verus!
