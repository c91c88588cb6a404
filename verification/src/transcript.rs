//! What becomes of the engine's output on its way to the reader.

use crate::language::{is_translation, translate};
use crate::text::{is_marker, is_special_mark, trimmed};
use crate::window::Window;
use vstd::prelude::*;
use vstd::string::StringExecFns;

verus! {

/// The segments that were read, each followed by a line feed, in order.
pub open spec fn joined_segments(segments: Seq<Option<String>>) -> Seq<char>
    decreases segments.len(),
{
    if segments.len() == 0 {
        Seq::empty()
    } else {
        match segments.last() {
            Some(text) => joined_segments(segments.drop_last()) + text@ + seq!['\n'],
            None => joined_segments(segments.drop_last()),
        }
    }
}

/// Puts the segments of one recognition together: every segment that could
/// be read, followed by a line feed. A segment that could not be read is
/// left out.
pub fn join_segments(segments: &Vec<Option<String>>) -> (text: String)
    ensures
        text@ == joined_segments(segments@),
{
    let mut text = String::new();
    let mut i: usize = 0;
    while i < segments.len()
        invariant
            i <= segments@.len(),
            text@ == joined_segments(segments@.take(i as int)),
        decreases segments@.len() - i,
    {
        proof {
            reveal_strlit("\n");
            assert(segments@.take(i + 1).drop_last() =~= segments@.take(i as int));
        }
        match &segments[i] {
            Some(segment) => {
                text.append(segment.as_str());
                text.append("\n");
                assert("\n"@ =~= seq!['\n']);
            },
            None => {},
        }
        i += 1;
    }
    assert(segments@.take(i as int) =~= segments@);
    text
}

/// What a worker passes on for one window: the recognized text without the
/// white space around it, if the engine gave any text and something is left
/// of it. A fault of the engine, no text, and blank text all pass on
/// nothing.
pub open spec fn passed_on<F>(outcome: Result<Option<String>, F>) -> Option<Seq<char>> {
    match outcome {
        Ok(Some(text)) => if trimmed(text@).len() > 0 {
            Some(trimmed(text@))
        } else {
            None
        },
        _ => None,
    }
}

/// Turns the outcome of one inference into the transcript to pass on, if
/// any.
pub fn transcript_of<F>(outcome: Result<Option<String>, F>) -> (out: Option<String>)
    ensures
        match out {
            Some(text) => passed_on(outcome) == Some(text@),
            None => passed_on(outcome) is None,
        },
{
    match outcome {
        Ok(Some(text)) => {
            let kept = text.as_str().trim();
            if kept.unicode_len() > 0 {
                Some(kept.to_owned())
            } else {
                None
            }
        },
        _ => None,
    }
}

/// `out` is what a worker passes on for a window with these samples when
/// `engine` does the recognition.
pub open spec fn is_recognized<T, F, G: FnOnce(Vec<T>) -> Result<Option<String>, F>>(
    samples: Vec<T>,
    engine: G,
    outcome: Result<Option<String>, F>,
    out: Option<String>,
) -> bool {
    &&& call_ensures(engine, (samples,), outcome)
    &&& match out {
        Some(text) => passed_on(outcome) == Some(text@),
        None => passed_on(outcome) is None,
    }
}

/// Runs one inference: hands the samples of `window` to `engine` and turns
/// the outcome into the transcript to pass on, if any. A fault of the
/// engine is not handed on: the window then simply has no transcript.
pub fn recognize<T, F, G: FnOnce(Vec<T>) -> Result<Option<String>, F>>(
    window: Window<T>,
    engine: G,
) -> (out: Option<String>)
    requires
        forall|samples: Vec<T>| samples@ == window@.samples ==> call_requires(engine, (samples,)),
    ensures
        exists|samples: Vec<T>, outcome: Result<Option<String>, F>|
            samples@ == window@.samples && #[trigger] is_recognized(samples, engine, outcome, out),
{
    let samples = window.into_samples();
    let ghost handed = samples;
    let outcome = engine(samples);
    let ghost got = outcome;
    let out = transcript_of(outcome);
    assert(is_recognized(handed, engine, got, out));
    out
}

/// Whether `raw` holds speech: something is left of it without the white
/// space around it, and that is no bracketed marker.
pub open spec fn is_speech(raw: Seq<char>) -> bool {
    trimmed(raw).len() > 0 && !is_marker(trimmed(raw))
}

/// The text of a transcript without the white space around it, if it holds
/// speech. Blank transcripts and bracketed markers for silence, music and
/// the like count as empty.
pub fn speech_text(raw: &str) -> (out: Option<String>)
    ensures
        out is Some <==> is_speech(raw@),
        out matches Some(text) ==> text@ == trimmed(raw@),
{
    let kept = raw.trim();
    if kept.unicode_len() == 0 || is_special_mark(kept) {
        None
    } else {
        Some(kept.to_owned())
    }
}

/// What is shown for one transcript.
#[derive(Debug, PartialEq, Eq)]
pub enum Caption {
    /// The engine handed the text back: it is shown once.
    Same(String),
    /// The text and its translation.
    Pair { english: String, chinese: String },
}

/// Whether the translation says nothing new: the two texts agree but for
/// the white space around them.
pub open spec fn is_echo(text: Seq<char>, translated: Seq<char>) -> bool {
    trimmed(text) == trimmed(translated)
}

/// Whether `shown` is the caption for `text` and its translation.
pub open spec fn is_caption(text: Seq<char>, translated: Seq<char>, shown: Caption) -> bool {
    match shown {
        Caption::Same(line) => is_echo(text, translated) && line@ == text,
        Caption::Pair { english, chinese } => !is_echo(text, translated) && english@ == text
            && chinese@ == translated,
    }
}

/// Chooses what to show for `text` and its translation.
pub fn caption(text: &str, translated: &str) -> (out: Caption)
    ensures
        is_caption(text@, translated@, out),
{
    let left = text.trim().to_owned();
    let right = translated.trim().to_owned();
    if left == right {
        Caption::Same(text.to_owned())
    } else {
        Caption::Pair { english: text.to_owned(), chinese: translated.to_owned() }
    }
}

/// `out` is what presenting a transcript with the speech `text` gives when
/// the translation came out as `translation`.
pub open spec fn is_presented<E>(
    text: Seq<char>,
    translation: Result<String, E>,
    out: Result<Option<Caption>, E>,
) -> bool {
    match translation {
        Ok(translated) => out matches Ok(Some(shown)) && is_caption(text, translated@, shown),
        Err(e) => out == Err::<Option<Caption>, E>(e),
    }
}

/// Takes one transcript from the result channel to what is shown for it.
///
/// A transcript without speech gives nothing and does not reach the
/// engine. Otherwise its text, without the white space around it, is
/// translated and captioned; a failure of the engine is handed on.
pub fn present<E, F: FnOnce(&str) -> Result<String, E>>(raw: &str, engine: F) -> (out: Result<
    Option<Caption>,
    E,
>)
    requires
        forall|text: &str| call_requires(engine, (text,)),
    ensures
        !is_speech(raw@) ==> out matches Ok(None),
        is_speech(raw@) ==> exists|text: &str, translation: Result<String, E>|
            {
                &&& text@ == trimmed(raw@)
                &&& #[trigger] is_translation(text, engine, translation)
                &&& is_presented(text@, translation, out)
            },
{
    let text = raw.trim();
    if text.unicode_len() == 0 || is_special_mark(text) {
        return Ok(None);
    }
    let translation = translate(text, engine);
    let ghost got = translation;
    let out = match translation {
        Ok(translated) => Ok(Some(caption(text, translated.as_str()))),
        Err(e) => Err(e),
    };
    assert(is_translation(text, engine, got) && is_presented(text@, got, out));
    out
}

} // verus!
