//! Identifiers: how new ones are made and how they are read from and written
//! as text.

use vstd::prelude::*;
use crate::error::{outcome, AppError, ErrorView};
use crate::models::Id;

verus! {

/// The identifier that a text denotes, if it denotes one.
pub uninterp spec fn id_of_text(text: Seq<char>) -> Option<Id>;

/// The text of an identifier: lower-case hexadecimal digits in five groups
/// joined by hyphens.
pub uninterp spec fn text_of_id(id: Id) -> Seq<char>;

/// Whether an identifier carries the marks of a randomly made one: version
/// four in bits 76 to 79, and the bits 62 and 63 reading `10`.
pub open spec fn is_random_id(id: Id) -> bool {
    (id >> 76) & 0xf == 4 && (id >> 62) & 0x3 == 2
}

/// `uuid::Uuid::new_v4`, as a 128-bit value. The identifier is random; all
/// that is known of it is its version and variant marks.
#[verifier::external_body]
pub(crate) fn fresh_id() -> (id: Id)
    ensures
        is_random_id(id),
{
    uuid::Uuid::new_v4().as_u128()
}

/// `uuid::Uuid::parse_str`, as a 128-bit value. The result depends on the
/// text alone.
#[verifier::external_body]
pub(crate) fn read_id(text: &str) -> (id: Option<Id>)
    ensures
        id == id_of_text(text@),
{
    match uuid::Uuid::parse_str(text) {
        Ok(id) => Some(id.as_u128()),
        Err(_) => None,
    }
}

/// The `Display` form of `uuid::Uuid`. The result depends on the identifier
/// alone.
#[verifier::external_body]
pub(crate) fn write_id(id: Id) -> (text: String)
    ensures
        text@ == text_of_id(id),
{
    uuid::Uuid::from_u128(id).to_string()
}

/// The message with which a malformed identifier is refused.
pub open spec fn malformed_id_message() -> Seq<char> {
    "无效的标识符"@
}

/// What reading an identifier comes to: the identifier, or a refusal.
pub open spec fn id_or_refusal(read: Option<Id>) -> Result<Id, ErrorView> {
    match read {
        Some(id) => Ok(id),
        None => Err(ErrorView::BadRequest(malformed_id_message())),
    }
}

/// Turns the outcome of reading an identifier into a result: a text that
/// denotes no identifier is a bad request.
pub fn require_id(read: Option<Id>) -> (result: Result<Id, AppError>)
    ensures
        outcome(result) == id_or_refusal(read),
{
    match read {
        Some(id) => Ok(id),
        None => Err(AppError::bad_request("无效的标识符")),
    }
}

/// Reads an identifier from a text of the boundary.
pub fn parse_id(text: &str) -> (result: Result<Id, AppError>)
    ensures
        outcome(result) == id_or_refusal(id_of_text(text@)),
{
    require_id(read_id(text))
}

/// Tells whether an identifier carries the marks of a randomly made one.
pub fn is_random_version(id: Id) -> (random: bool)
    ensures
        random == is_random_id(id),
{
    (id >> 76) & 0xf == 4 && (id >> 62) & 0x3 == 2
}

/// Writes an identifier as text.
pub fn format_id(id: Id) -> (text: String)
    ensures
        text@ == text_of_id(id),
{
    write_id(id)
}

} // verus!
