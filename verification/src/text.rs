//! What the pipeline needs to know of a piece of text: where its white
//! space is, and whether it is a bracketed marker.

use vstd::prelude::*;

verus! {

/// Whether `c` is white space to `char::is_whitespace`, that is, whether it
/// has the Unicode property `White_Space`.
pub uninterp spec fn is_white_space(c: char) -> bool;

/// `char::is_whitespace` tells whether a character has the Unicode property
/// `White_Space`; the contract gives that answer its name.
pub assume_specification[ char::is_whitespace ](c: char) -> (b: bool)
    ensures
        b == is_white_space(c),
;

/// `s` without the white space at its start.
pub open spec fn trimmed_start(s: Seq<char>) -> Seq<char>
    decreases s.len(),
{
    if s.len() > 0 && is_white_space(s[0]) {
        trimmed_start(s.drop_first())
    } else {
        s
    }
}

/// `s` without the white space at its end.
pub open spec fn trimmed_end(s: Seq<char>) -> Seq<char>
    decreases s.len(),
{
    if s.len() > 0 && is_white_space(s.last()) {
        trimmed_end(s.drop_last())
    } else {
        s
    }
}

/// `s` without the white space at its start and at its end.
pub open spec fn trimmed(s: Seq<char>) -> Seq<char> {
    trimmed_end(trimmed_start(s))
}

/// `str::trim` returns the text without its leading and trailing white
/// space, where white space is what has the Unicode property `White_Space`.
pub assume_specification[ str::trim ](s: &str) -> (t: &str)
    ensures
        t@ == trimmed(s@),
;

/// Whether `s` is a bracketed marker, such as the engine puts out for
/// silence or music: it opens with `[` and closes with `]`.
pub open spec fn is_marker(s: Seq<char>) -> bool {
    s.len() > 0 && s[0] == '[' && s.last() == ']'
}

/// Whether `text` is a bracketed marker.
pub fn is_special_mark(text: &str) -> (b: bool)
    ensures
        b == is_marker(text@),
{
    let n: usize = text.unicode_len();
    if n == 0 {
        false
    } else {
        text.get_char(0) == '[' && text.get_char(n - 1) == ']'
    }
}

} // verus!
