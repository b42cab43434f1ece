//! Styled text fragments: the unit the renderer emits.

use vstd::prelude::*;

verus! {

/// A named terminal color.
#[derive(Clone, Copy, Debug, PartialEq, Eq, Structural)]
pub enum Color {
    Black,
    DarkRed,
    DarkGreen,
    DarkYellow,
    DarkBlue,
    DarkMagenta,
    DarkCyan,
    Grey,
    DarkGrey,
    Red,
    Green,
    Yellow,
    Blue,
    Magenta,
    Cyan,
    White,
}

/// A visual treatment applied to a span of text without altering its
/// content.
#[derive(Clone, Copy, Debug, PartialEq, Eq)]
pub struct StyleSheet {
    pub fg: Option<Color>,
    pub bg: Option<Color>,
    pub bold: bool,
}

impl StyleSheet {
    /// A style that changes nothing.
    pub fn empty() -> (r: Self)
        ensures
            r.fg is None,
            r.bg is None,
            !r.bold,
    {
        StyleSheet { fg: None, bg: None, bold: false }
    }

    /// A style with the given foreground color.
    pub fn with_fg(color: Color) -> (r: Self)
        ensures
            r.fg == Some(color),
            r.bg is None,
            !r.bold,
    {
        StyleSheet { fg: Some(color), bg: None, bold: false }
    }
}

/// An immutable pairing of a text value and a style descriptor.
#[derive(Clone, Debug, PartialEq, Eq)]
pub struct Styled {
    pub content: String,
    pub style: StyleSheet,
}

impl Styled {
    /// A span of `content` with no styling.
    pub fn new(content: &str) -> (r: Self)
        ensures
            r.content@ == content@,
            r.style.fg is None && r.style.bg is None && !r.style.bold,
    {
        Styled { content: content.to_owned(), style: StyleSheet::empty() }
    }

    /// The same text under another style.
    pub fn with_style_sheet(self, style: StyleSheet) -> (r: Self)
        ensures
            r.content@ == self.content@,
            r.style == style,
    {
        Styled { content: self.content, style }
    }

    /// An identical copy of this span.
    pub fn snapshot(&self) -> (r: Self)
        ensures
            r == *self,
    {
        Styled { content: self.content.clone(), style: self.style }
    }
}

/// The ghost image of a styled span: its text and its style.
#[verifier::ext_equal]
pub struct SpanSpec {
    pub text: Seq<char>,
    pub style: StyleSheet,
}

/// The style that changes nothing.
pub open spec fn empty_style() -> StyleSheet {
    StyleSheet { fg: None, bg: None, bold: false }
}

/// A style with only a foreground color.
pub open spec fn fg_style(c: Color) -> StyleSheet {
    StyleSheet { fg: Some(c), bg: None, bold: false }
}

/// A span of `text` with no styling, as plain `write` calls emit.
pub open spec fn plain_span(text: Seq<char>) -> SpanSpec {
    SpanSpec { text, style: empty_style() }
}

impl View for Styled {
    type V = SpanSpec;

    open spec fn view(&self) -> SpanSpec {
        SpanSpec { text: self.content@, style: self.style }
    }
}

/// How an option's 1-based ordinal is rendered ahead of its value.
#[derive(Clone, Copy, Debug, PartialEq, Eq, Structural)]
pub enum IndexPrefix {
    /// No ordinal is shown.
    Omitted,
    /// The ordinal followed by `)`.
    Simple,
    /// The ordinal right-aligned with spaces to the width of the largest
    /// possible ordinal, followed by `)`.
    SpacePadded,
    /// The ordinal left-padded with zeros to the width of the largest
    /// possible ordinal, followed by `)`.
    ZeroPadded,
}

} // verus!
