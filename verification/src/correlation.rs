//! Correlation identifiers: 128-bit numbers that a client attaches to an
//! event and that the next push echoes, written as UUIDs on the wire.

use vstd::arithmetic::power::pow;
use vstd::prelude::*;

verus! {

/// The lower-case hexadecimal digit for a number below sixteen.
pub open spec fn hex_digit(n: int) -> char {
    if n < 10 {
        ('0' as int + n) as char
    } else {
        ('a' as int + n - 10) as char
    }
}

/// The `k`-th of the 32 hexadecimal digits of `id`, the most significant
/// first.
pub open spec fn nibble(id: u128, k: int) -> int {
    (id as int / pow(16, (31 - k) as nat)) % 16
}

/// The character at index `i` of an identifier's text.
pub open spec fn uuid_char(id: u128, i: int) -> char {
    if i == 8 || i == 13 || i == 18 || i == 23 {
        '-'
    } else if i < 8 {
        hex_digit(nibble(id, i))
    } else if i < 13 {
        hex_digit(nibble(id, i - 1))
    } else if i < 18 {
        hex_digit(nibble(id, i - 2))
    } else if i < 23 {
        hex_digit(nibble(id, i - 3))
    } else {
        hex_digit(nibble(id, i - 4))
    }
}

/// An identifier's text: its 32 lower-case hexadecimal digits in groups of
/// 8, 4, 4, 4 and 12, with a hyphen between the groups.
pub open spec fn uuid_text(id: u128) -> Seq<char> {
    Seq::new(36, |i: int| uuid_char(id, i))
}

/// The identifier that a text denotes as a UUID, where it denotes one.
pub uninterp spec fn uuid_value_of(text: Seq<char>) -> Option<u128>;

/// `Uuid::parse_str`, with its error dropped and the identifier taken as a
/// number by `Uuid::as_u128`. The claim is that the outcome depends on the
/// text alone: the identifier that the text denotes in one of the forms
/// that the parser knows, or nothing where it denotes none.
#[verifier::external_body]
pub(crate) fn uuid_from_str(text: &str) -> (id: Option<u128>)
    ensures
        id == uuid_value_of(text@),
{
    match uuid::Uuid::parse_str(text) {
        Ok(parsed) => Some(parsed.as_u128()),
        Err(_) => None,
    }
}

/// The `Display` form of the `Uuid` that `Uuid::from_u128` makes of a
/// number. The claim is that it is the hyphenated form in lower case, the
/// number's most significant digit first.
#[verifier::external_body]
pub(crate) fn uuid_to_string(id: u128) -> (text: String)
    ensures
        text@ == uuid_text(id),
{
    uuid::Uuid::from_u128(id).to_string()
}

/// No identifier's text holds a parenthesis, so it can stand as the context
/// of a message.
pub proof fn lemma_uuid_text_has_no_paren(id: u128)
    ensures
        uuid_text(id).len() == 36,
        forall|i: int| 0 <= i < 36 ==> uuid_text(id)[i] != '(' && uuid_text(id)[i] != ')',
{
    assert forall|i: int| 0 <= i < 36 implies uuid_text(id)[i] != '(' && uuid_text(id)[i] != ')' by {
        assert(uuid_text(id)[i] == uuid_char(id, i));
    }
}

} // verus!
