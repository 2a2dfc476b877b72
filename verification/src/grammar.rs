//! The wire grammar as mathematics: where the prefix, the context and the
//! body of a message lie in a text, counted in characters.

use vstd::prelude::*;
use crate::text::is_white_space;

verus! {

/// The least index at or after `from` at which `s` holds `c`, or the length
/// of `s` where there is none.
pub open spec fn find_char(s: Seq<char>, c: char, from: int) -> int
    decreases s.len() - from,
{
    if from < 0 || from >= s.len() {
        s.len() as int
    } else if s[from] == c {
        from
    } else {
        find_char(s, c, from + 1)
    }
}

/// The least index at or after `from` at which `s` holds a character that is
/// no white space, or the length of `s` where there is none.
pub open spec fn skip_white_space(s: Seq<char>, from: int) -> int
    decreases s.len() - from,
{
    if from < 0 || from >= s.len() {
        s.len() as int
    } else if !is_white_space(s[from]) {
        from
    } else {
        skip_white_space(s, from + 1)
    }
}

/// `find_char` yields the first occurrence and nothing before it matches.
pub proof fn lemma_find_char(s: Seq<char>, c: char, from: int)
    requires
        0 <= from <= s.len(),
    ensures
        from <= find_char(s, c, from) <= s.len(),
        forall|k: int| from <= k < find_char(s, c, from) ==> s[k] != c,
        find_char(s, c, from) < s.len() ==> s[find_char(s, c, from)] == c,
    decreases s.len() - from,
{
    if from < s.len() && s[from] != c {
        lemma_find_char(s, c, from + 1);
    }
}

/// An index that holds `c`, with no `c` between `from` and it, is the one
/// that `find_char` yields.
pub proof fn lemma_find_char_unique(s: Seq<char>, c: char, from: int, at: int)
    requires
        0 <= from <= at <= s.len(),
        forall|k: int| from <= k < at ==> s[k] != c,
        at < s.len() ==> s[at] == c,
    ensures
        find_char(s, c, from) == at,
    decreases at - from,
{
    if from < at {
        lemma_find_char_unique(s, c, from + 1, at);
    }
}

/// `skip_white_space` yields the first character that is no white space, and
/// everything before it is white space.
pub proof fn lemma_skip_white_space(s: Seq<char>, from: int)
    requires
        0 <= from <= s.len(),
    ensures
        from <= skip_white_space(s, from) <= s.len(),
        forall|k: int| from <= k < skip_white_space(s, from) ==> is_white_space(s[k]),
        skip_white_space(s, from) < s.len() ==> !is_white_space(s[skip_white_space(s, from)]),
    decreases s.len() - from,
{
    if from < s.len() && is_white_space(s[from]) {
        lemma_skip_white_space(s, from + 1);
    }
}

/// An index that holds no white space, with only white space between `from`
/// and it, is the one that `skip_white_space` yields.
pub proof fn lemma_skip_white_space_unique(s: Seq<char>, from: int, at: int)
    requires
        0 <= from <= at <= s.len(),
        forall|k: int| from <= k < at ==> is_white_space(s[k]),
        at < s.len() ==> !is_white_space(s[at]),
    ensures
        skip_white_space(s, from) == at,
    decreases at - from,
{
    if from < at {
        lemma_skip_white_space_unique(s, from + 1, at);
    }
}

} // verus!
