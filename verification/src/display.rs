//! The pair of lines that the reader sees.

use crate::text::{is_marker, is_special_mark};
use vstd::prelude::*;

verus! {

/// Holds the English line and the Chinese line that are on show.
pub struct ScrollingDisplay {
    current_english: String,
    current_chinese: String,
}

/// What a [`ScrollingDisplay`] shows, as mathematical values.
pub struct DisplayView {
    pub english: Seq<char>,
    pub chinese: Seq<char>,
}

impl View for ScrollingDisplay {
    type V = DisplayView;

    closed spec fn view(&self) -> DisplayView {
        DisplayView { english: self.current_english@, chinese: self.current_chinese@ }
    }
}

impl ScrollingDisplay {
    /// A display with two empty lines.
    pub fn new() -> (d: Self)
        ensures
            d@.english.len() == 0,
            d@.chinese.len() == 0,
    {
        ScrollingDisplay { current_english: String::new(), current_chinese: String::new() }
    }

    /// Whether `text` is a bracketed marker, which is never shown.
    pub fn is_special_mark(text: &str) -> (b: bool)
        ensures
            b == is_marker(text@),
    {
        is_special_mark(text)
    }

    /// Puts a new pair of lines on show, unless either of them is a
    /// bracketed marker: then the display stays as it is. Returns whether
    /// the display changed and is to be drawn again.
    pub fn add_text(&mut self, english: &str, chinese: &str) -> (shown: bool)
        ensures
            shown == !(is_marker(english@) || is_marker(chinese@)),
            shown ==> final(self)@ == (DisplayView { english: english@, chinese: chinese@ }),
            !shown ==> final(self)@ == old(self)@,
    {
        if is_special_mark(english) || is_special_mark(chinese) {
            return false;
        }
        self.current_english = english.to_owned();
        self.current_chinese = chinese.to_owned();
        true
    }

    /// The English line.
    pub fn english(&self) -> (line: &str)
        ensures
            line@ == self@.english,
    {
        self.current_english.as_str()
    }

    /// The Chinese line.
    pub fn chinese(&self) -> (line: &str)
        ensures
            line@ == self@.chinese,
    {
        self.current_chinese.as_str()
    }
}

} // verus!
