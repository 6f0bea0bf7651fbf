//! Identifiers: 128-bit values, their canonical text, and where new ones
//! come from.

use vstd::prelude::*;

use crate::errors::{invalid_id_error, ApiError};

verus! {

/// Number of characters in the canonical text of an identifier.
pub const ID_TEXT_LEN: usize = 36;

pub open spec fn is_hex_digit(c: char) -> bool {
    ('0' <= c && c <= '9') || ('a' <= c && c <= 'f') || ('A' <= c && c <= 'F')
}

/// The number that a hexadecimal digit stands for, in either case.
pub open spec fn hex_digit_value(c: char) -> nat {
    if '0' <= c && c <= '9' {
        (c as int - '0' as int) as nat
    } else if 'a' <= c && c <= 'f' {
        (c as int - 'a' as int + 10) as nat
    } else {
        (c as int - 'A' as int + 10) as nat
    }
}

/// The places of the four hyphens in the canonical text.
pub open spec fn is_hyphen_index(i: int) -> bool {
    i == 8 || i == 13 || i == 18 || i == 23
}

/// The canonical text of an identifier: 32 hexadecimal digits of either
/// case, in groups of 8, 4, 4, 4 and 12 with a hyphen between the groups.
pub open spec fn is_canonical_id(text: Seq<char>) -> bool {
    &&& text.len() == ID_TEXT_LEN
    &&& forall|i: int|
        #![trigger text[i]]
        0 <= i < ID_TEXT_LEN ==> if is_hyphen_index(i) {
            text[i] == '-'
        } else {
            is_hex_digit(text[i])
        }
}

/// The 32 digits of a canonical text, without the hyphens.
pub open spec fn id_digits(text: Seq<char>) -> Seq<char> {
    text.subrange(0, 8) + text.subrange(9, 13) + text.subrange(14, 18) + text.subrange(19, 23)
        + text.subrange(24, 36)
}

/// The number that a run of hexadecimal digits writes, most significant
/// digit first.
pub open spec fn hex_value(digits: Seq<char>) -> nat
    decreases digits.len(),
{
    if digits.len() == 0 {
        0
    } else {
        16 * hex_value(digits.drop_last()) + hex_digit_value(digits.last())
    }
}

/// The identifier that a canonical text writes.
pub open spec fn id_value(text: Seq<char>) -> nat {
    hex_value(id_digits(text))
}

/// The layout of a random identifier: version 4, and the
/// variant whose two leading bits are `10`.
pub open spec fn is_random_id(id: u128) -> bool {
    id & 0x0000_0000_0000_f000_c000_0000_0000_0000u128
        == 0x0000_0000_0000_4000_8000_0000_0000_0000u128
}

/// Sixteen to the power `n`.
pub open spec fn sixteen_to(n: nat) -> nat
    decreases n,
{
    if n == 0 {
        1
    } else {
        16 * sixteen_to((n - 1) as nat)
    }
}

/// A run of `n` hexadecimal digits writes a number below sixteen to the
/// power `n`.
pub proof fn lemma_hex_value_bound(digits: Seq<char>)
    requires
        forall|i: int| 0 <= i < digits.len() ==> is_hex_digit(#[trigger] digits[i]),
    ensures
        hex_value(digits) < sixteen_to(digits.len()),
    decreases digits.len(),
{
    if digits.len() > 0 {
        lemma_hex_value_bound(digits.drop_last());
        assert(is_hex_digit(digits[digits.len() - 1]));
        assert(hex_digit_value(digits.last()) <= 15);
    }
}

/// Every canonical text writes an identifier of 128 bits.
pub proof fn lemma_id_value_fits(text: Seq<char>)
    requires
        is_canonical_id(text),
    ensures
        id_value(text) <= u128::MAX,
{
    let digits = id_digits(text);
    assert(digits.len() == 32);
    assert forall|i: int| 0 <= i < digits.len() implies is_hex_digit(#[trigger] digits[i]) by {
        if i < 8 {
            assert(digits[i] == text[i]);
        } else if i < 12 {
            assert(digits[i] == text[i + 1]);
        } else if i < 16 {
            assert(digits[i] == text[i + 2]);
        } else if i < 20 {
            assert(digits[i] == text[i + 3]);
        } else {
            assert(digits[i] == text[i + 4]);
        }
    }
    lemma_hex_value_bound(digits);
    assert(sixteen_to(32) == 0x1_0000_0000_0000_0000_0000_0000_0000_0000) by {
        reveal_with_fuel(sixteen_to, 33);
    }
}

/// `uuid::Error`, the failure that `uuid::Uuid::parse_str` reports. Nothing
/// is known of what it holds.
#[verifier::external_type_specification]
#[verifier::external_body]
pub struct ExUuidError(uuid::Error);

/// `uuid::Uuid::parse_str`, with the identifier handed back as the integer
/// that `Uuid::as_u128` gives. Claimed and not proved: a text in canonical
/// form is accepted, and its digits, read as one hexadecimal number, are
/// the identifier. Nothing is claimed of any other text.
#[verifier::external_body]
pub(crate) fn parse_id_text(text: &str) -> (parsed: Result<u128, uuid::Error>)
    ensures
        is_canonical_id(text@) ==> parsed is Ok && parsed->Ok_0 == id_value(text@),
{
    match uuid::Uuid::parse_str(text) {
        Ok(id) => Ok(id.as_u128()),
        Err(e) => Err(e),
    }
}

/// `uuid::Uuid::new_v4`, as the integer that `Uuid::as_u128` gives. Claimed
/// and not proved: the identifier has the layout of a random one. Which
/// identifier comes back is left open.
#[verifier::external_body]
pub(crate) fn random_id() -> (id: u128)
    ensures
        is_random_id(id),
{
    uuid::Uuid::new_v4().as_u128()
}

impl From<uuid::Error> for ApiError {
    /// Every failure to parse an identifier is the same error to the client.
    fn from(e: uuid::Error) -> (converted: Self)
        ensures
            converted@ == invalid_id_error(),
    {
        ApiError::invalid_uuid()
    }
}

/// The error's message is a `String`, which no specification function can
/// build: the conversion is stated by the view of its result, on `from`
/// itself, and not by a specification function.
impl vstd::std_specs::convert::FromSpecImpl<uuid::Error> for ApiError {
    open spec fn obeys_from_spec() -> bool {
        false
    }

    open spec fn from_spec(e: uuid::Error) -> ApiError {
        ApiError::InvalidUuid(arbitrary())
    }
}

fn is_hex(c: char) -> (hex: bool)
    ensures
        hex == is_hex_digit(c),
{
    ('0' <= c && c <= '9') || ('a' <= c && c <= 'f') || ('A' <= c && c <= 'F')
}

/// Tells whether `text` is the canonical text of an identifier.
pub fn is_canonical(text: &str) -> (canonical: bool)
    ensures
        canonical == is_canonical_id(text@),
{
    if text.unicode_len() != ID_TEXT_LEN {
        return false;
    }
    let mut i: usize = 0;
    while i < ID_TEXT_LEN
        invariant
            text@.len() == ID_TEXT_LEN,
            i <= ID_TEXT_LEN,
            forall|j: int|
                #![trigger text@[j]]
                0 <= j < i ==> if is_hyphen_index(j) {
                    text@[j] == '-'
                } else {
                    is_hex_digit(text@[j])
                },
        decreases ID_TEXT_LEN - i,
    {
        let c = text.get_char(i);
        let fits = if i == 8 || i == 13 || i == 18 || i == 23 {
            c == '-'
        } else {
            is_hex(c)
        };
        if !fits {
            return false;
        }
        i += 1;
    }
    true
}

} // verus!
