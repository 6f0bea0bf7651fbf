//! Helpers shared by the request handlers.

use vstd::prelude::*;

use crate::errors::{invalid_id_error, ApiError, ApiErrorView, ErrorBody};
use crate::ident::{id_value, is_canonical, is_canonical_id, parse_id_text};
use crate::status::NOT_FOUND;

verus! {

pub type ApiResult<T> = Result<T, ApiError>;

/// A handler's outcome with both sides taken by their views.
pub open spec fn result_view<T: View>(r: ApiResult<T>) -> Result<T::V, ApiErrorView> {
    match r {
        Ok(v) => Ok(v@),
        Err(e) => Err(e@),
    }
}

/// What reading an identifier from `text` gives: the identifier where the
/// text is canonical, and the same error for every other text.
pub open spec fn parsed_id(text: Seq<char>) -> Result<u128, ApiErrorView> {
    if is_canonical_id(text) {
        Ok(id_value(text) as u128)
    } else {
        Err(invalid_id_error())
    }
}

/// Reads an identifier from its canonical text. Every other text is
/// rejected, also one that writes the same digits without hyphens, in
/// braces or behind `urn:uuid:`.
pub fn parse_uuid(id_str: &str) -> (parsed: ApiResult<u128>)
    ensures
        result_view(parsed) == parsed_id(id_str@),
        parsed is Ok <==> is_canonical_id(id_str@),
        parsed matches Ok(id) ==> id == id_value(id_str@),
{
    if !is_canonical(id_str) {
        return Err(ApiError::invalid_uuid());
    }
    match parse_id_text(id_str) {
        Ok(id) => Ok(id),
        Err(e) => Err(ApiError::from(e)),
    }
}

/// The text that reports a missing resource.
pub open spec fn not_found_message(resource: Seq<char>) -> Seq<char> {
    resource + " not found"@
}

/// The response that reports a missing resource.
pub fn not_found(resource: &str) -> (response: (u16, ErrorBody))
    ensures
        response.0 == NOT_FOUND,
        response.1@.error == "NotFound"@,
        response.1@.message == not_found_message(resource@),
{
    let message = String::from_str(resource).concat(" not found");
    (NOT_FOUND, ErrorBody { error: String::from_str("NotFound"), message })
}

} // verus!
