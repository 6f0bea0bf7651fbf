//! The service's one setting: the port it listens on.

use vstd::prelude::*;

verus! {

/// The port that is used where none is set.
pub const DEFAULT_PORT: u16 = 8080;

pub open spec fn is_decimal_digit(c: char) -> bool {
    '0' <= c && c <= '9'
}

/// The number that a decimal digit stands for.
pub open spec fn decimal_digit_value(c: char) -> nat {
    if is_decimal_digit(c) {
        (c as int - '0' as int) as nat
    } else {
        0
    }
}

/// The number that a run of decimal digits writes, most significant digit
/// first.
pub open spec fn decimal_value(digits: Seq<char>) -> nat
    decreases digits.len(),
{
    if digits.len() == 0 {
        0
    } else {
        10 * decimal_value(digits.drop_last()) + decimal_digit_value(digits.last())
    }
}

/// The digits of a port's text: the text without the plus sign that may
/// lead it.
pub open spec fn port_digits(text: Seq<char>) -> Seq<char> {
    if text.len() > 0 && text[0] == '+' {
        text.subrange(1, text.len() as int)
    } else {
        text
    }
}

/// A text that writes a port: one decimal digit or more, after at most one
/// plus sign, with a value no greater than 65535.
pub open spec fn is_port_text(text: Seq<char>) -> bool {
    let digits = port_digits(text);
    &&& digits.len() > 0
    &&& forall|i: int| 0 <= i < digits.len() ==> is_decimal_digit(#[trigger] digits[i])
    &&& decimal_value(digits) <= u16::MAX
}

/// A run of digits writes no less than any run that it starts with.
proof fn lemma_decimal_value_grows(digits: Seq<char>, len: int)
    requires
        0 <= len <= digits.len(),
    ensures
        decimal_value(digits.subrange(0, len)) <= decimal_value(digits),
    decreases digits.len() - len,
{
    if len == digits.len() {
        assert(digits.subrange(0, len) =~= digits);
    } else {
        let longer = digits.subrange(0, len + 1);
        assert(longer.drop_last() =~= digits.subrange(0, len));
        lemma_decimal_value_grows(digits, len + 1);
    }
}

/// Reads a port from its text.
pub fn parse_port(text: &str) -> (port: Option<u16>)
    ensures
        match port {
            Some(p) => is_port_text(text@) && p == decimal_value(port_digits(text@)),
            None => !is_port_text(text@),
        },
{
    let len = text.unicode_len();
    let start: usize = if len > 0 && text.get_char(0) == '+' {
        1
    } else {
        0
    };
    if start == len {
        return None;
    }
    let ghost digits = port_digits(text@);
    let mut value: u32 = 0;
    let mut i: usize = start;
    while i < len
        invariant
            len == text@.len(),
            digits == port_digits(text@),
            digits.len() == len - start,
            start <= i <= len,
            start == 0 || start == 1,
            forall|j: int| 0 <= j < digits.len() ==> digits[j] == text@[j + start],
            forall|j: int| 0 <= j < i - start ==> is_decimal_digit(#[trigger] digits[j]),
            value == decimal_value(digits.subrange(0, i - start)),
            value <= u16::MAX,
        decreases len - i,
    {
        let c = text.get_char(i);
        if !('0' <= c && c <= '9') {
            assert(!is_decimal_digit(digits[i - start]));
            return None;
        }
        let digit: u32 = c as u32 - '0' as u32;
        let next: u32 = value * 10 + digit;
        proof {
            let longer = digits.subrange(0, i - start + 1);
            assert(longer.drop_last() =~= digits.subrange(0, i - start));
            assert(longer.last() == c);
            assert(next == decimal_value(longer));
        }
        if next > 65535 {
            proof {
                lemma_decimal_value_grows(digits, i - start + 1);
            }
            return None;
        }
        value = next;
        i += 1;
    }
    assert(digits.subrange(0, i - start) =~= digits);
    Some(value as u16)
}

/// What `port_from` gives: the default where nothing is set, and else the
/// port that the setting writes, if it writes one.
pub open spec fn port_of_setting(setting: Option<Seq<char>>) -> Option<u16> {
    match setting {
        None => Some(DEFAULT_PORT),
        Some(text) => if is_port_text(text) {
            Some(decimal_value(port_digits(text)) as u16)
        } else {
            None
        },
    }
}

/// The port to listen on, given what the `PORT` setting holds, if it is
/// set at all. `None` says that the setting is no port.
pub fn port_from(setting: Option<&str>) -> (port: Option<u16>)
    ensures
        port == port_of_setting(
            match setting {
                Some(text) => Some(text@),
                None => None,
            },
        ),
{
    match setting {
        Some(text) => parse_port(text),
        None => Some(DEFAULT_PORT),
    }
}

} // verus!
