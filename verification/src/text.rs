//! What this crate takes for granted of the standard library's texts and
//! characters.

use vstd::prelude::*;

verus! {

/// The characters that carry the Unicode property `White_Space`.
pub open spec fn is_white_space(c: char) -> bool {
    let n = c as u32;
    ||| 0x09 <= n <= 0x0D
    ||| n == 0x20
    ||| n == 0x85
    ||| n == 0xA0
    ||| n == 0x1680
    ||| 0x2000 <= n <= 0x200A
    ||| n == 0x2028
    ||| n == 0x2029
    ||| n == 0x202F
    ||| n == 0x205F
    ||| n == 0x3000
}

/// `char::is_whitespace`. The claim is that it holds of the characters that
/// carry the Unicode property `White_Space`, which are those that
/// `is_white_space` lists.
pub assume_specification[ char::is_whitespace ](c: char) -> (r: bool)
    ensures
        r == is_white_space(c),
;

/// `==` on `str`. The claim is that it holds of two texts with the same
/// characters, and of no others.
pub assume_specification[ <str as PartialEq>::eq ](a: &str, b: &str) -> (r: bool)
    ensures
        r == (a@ == b@),
;

} // verus!
