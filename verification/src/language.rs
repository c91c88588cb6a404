//! Tells English text from other text, and keeps other text away from the
//! translation engine.

use crate::text::is_white_space;
use vstd::prelude::*;

verus! {

/// Whether `c` is one of the letters `a` to `z` or `A` to `Z`.
pub open spec fn is_ascii_letter(c: char) -> bool {
    ('a' <= c && c <= 'z') || ('A' <= c && c <= 'Z')
}

/// The number of ASCII letters in `s`.
pub open spec fn ascii_letters(s: Seq<char>) -> nat
    decreases s.len(),
{
    if s.len() == 0 {
        0
    } else {
        ascii_letters(s.drop_last()) + if is_ascii_letter(s.last()) {
            1nat
        } else {
            0nat
        }
    }
}

/// The number of characters of `s` that are not white space.
pub open spec fn visible_chars(s: Seq<char>) -> nat
    decreases s.len(),
{
    if s.len() == 0 {
        0
    } else {
        visible_chars(s.drop_last()) + if is_white_space(s.last()) {
            0nat
        } else {
            1nat
        }
    }
}

/// Whether `s` reads as English: it has a character that is not white
/// space, and more than half of such characters are ASCII letters.
pub open spec fn reads_as_english(s: Seq<char>) -> bool {
    visible_chars(s) > 0 && 2 * ascii_letters(s) > visible_chars(s)
}

/// Neither count exceeds the length of the text.
pub proof fn lemma_counts_bounded(s: Seq<char>)
    ensures
        ascii_letters(s) <= s.len(),
        visible_chars(s) <= s.len(),
    decreases s.len(),
{
    if s.len() > 0 {
        lemma_counts_bounded(s.drop_last());
    }
}

/// Whether `c` is an ASCII letter.
pub fn is_ascii_alphabetic(c: char) -> (b: bool)
    ensures
        b == is_ascii_letter(c),
{
    (c >= 'a' && c <= 'z') || (c >= 'A' && c <= 'Z')
}

/// Whether `text` is mostly made of English letters.
pub fn is_english(text: &str) -> (b: bool)
    ensures
        b == reads_as_english(text@),
{
    let mut letters: usize = 0;
    let mut visible: usize = 0;
    let n: usize = text.unicode_len();
    for c in it: text.chars()
        invariant
            it.seq() == text@,
            n == text@.len(),
            letters == ascii_letters(text@.take(it.index() as int)),
            visible == visible_chars(text@.take(it.index() as int)),
    {
        proof {
            let next = text@.take(it.index() + 1);
            assert(next.drop_last() =~= text@.take(it.index() as int));
            assert(next.last() == c);
            lemma_counts_bounded(next);
        }
        if is_ascii_alphabetic(c) {
            letters = letters + 1;
        }
        if !c.is_whitespace() {
            visible = visible + 1;
        }
    }
    assert(text@.take(text@.len() as int) =~= text@);
    visible > 0 && letters > visible / 2
}

/// `out` is what translating `text` gives when `engine` does the
/// translation: the text itself where it does not read as English, and
/// otherwise whatever `engine` makes of it.
pub open spec fn is_translation<E, F: FnOnce(&str) -> Result<String, E>>(
    text: &str,
    engine: F,
    out: Result<String, E>,
) -> bool {
    if reads_as_english(text@) {
        call_ensures(engine, (text,), out)
    } else {
        out matches Ok(same) && same@ == text@
    }
}

/// Translates `text` if it is English, and passes it through verbatim if it
/// is not: the engine never sees text in another language.
pub fn translate<E, F: FnOnce(&str) -> Result<String, E>>(text: &str, engine: F) -> (out: Result<
    String,
    E,
>)
    requires
        call_requires(engine, (text,)),
    ensures
        is_translation(text, engine, out),
        !reads_as_english(text@) ==> (out matches Ok(same) && same@ == text@),
{
    if is_english(text) {
        engine(text)
    } else {
        Ok(text.to_owned())
    }
}

} // verus!
