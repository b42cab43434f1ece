//! Read-only view over a single logical input line.

use vstd::prelude::*;

verus! {

/// The live input of a prompt: its content, the character offset of the
/// editing cursor inside it, and an optional placeholder shown while the
/// content is empty.
#[derive(Clone, Debug)]
pub struct Input {
    content: String,
    cursor: usize,
    placeholder: Option<String>,
}

impl Input {
    /// The cursor always sits at a character offset inside the content,
    /// or just past its end.
    pub closed spec fn wf(&self) -> bool {
        self.cursor <= self.content@.len()
    }

    pub closed spec fn spec_content(&self) -> Seq<char> {
        self.content@
    }

    pub closed spec fn spec_cursor(&self) -> int {
        self.cursor as int
    }

    pub closed spec fn spec_placeholder(&self) -> Option<Seq<char>> {
        match self.placeholder {
            Some(p) => Some(p@),
            None => None,
        }
    }

    /// What well-formedness gives a caller: the cursor offset never
    /// passes the end of the content, so the pre-cursor substring is
    /// exactly the first `spec_cursor()` characters.
    pub proof fn lemma_wf_bounds(&self)
        requires
            self.wf(),
        ensures
            0 <= self.spec_cursor() <= self.spec_content().len(),
    {
    }

    /// An input holding `content` with the cursor parked at its end.
    pub fn new(content: &str) -> (r: Self)
        ensures
            r.wf(),
            r.spec_content() == content@,
            r.spec_cursor() == content@.len(),
            r.spec_placeholder() is None,
    {
        let c = content.to_owned();
        let len = c.as_str().unicode_len();
        Input { content: c, cursor: len, placeholder: None }
    }

    /// The same input with the cursor moved to character offset
    /// `cursor`, clamped to the end of the content.
    pub fn with_cursor(self, cursor: usize) -> (r: Self)
        ensures
            r.wf(),
            r.spec_content() == self.spec_content(),
            r.spec_placeholder() == self.spec_placeholder(),
            r.spec_cursor() == if cursor <= self.spec_content().len() {
                cursor as int
            } else {
                self.spec_content().len() as int
            },
    {
        let len = self.content.as_str().unicode_len();
        let cur = if cursor <= len {
            cursor
        } else {
            len
        };
        Input { content: self.content, cursor: cur, placeholder: self.placeholder }
    }

    /// The same input with a placeholder.
    pub fn with_placeholder(self, placeholder: &str) -> (r: Self)
        ensures
            r.wf() == self.wf(),
            r.spec_content() == self.spec_content(),
            r.spec_cursor() == self.spec_cursor(),
            r.spec_placeholder() == Some(placeholder@),
    {
        Input {
            content: self.content,
            cursor: self.cursor,
            placeholder: Some(placeholder.to_owned()),
        }
    }

    pub fn content(&self) -> (r: &str)
        ensures
            r@ == self.spec_content(),
    {
        self.content.as_str()
    }

    pub fn cursor(&self) -> (r: usize)
        ensures
            r as int == self.spec_cursor(),
    {
        self.cursor
    }

    pub fn length(&self) -> (r: usize)
        ensures
            r as int == self.spec_content().len(),
    {
        self.content.as_str().unicode_len()
    }

    pub fn is_empty(&self) -> (r: bool)
        ensures
            r == (self.spec_content().len() == 0),
    {
        self.length() == 0
    }

    pub fn placeholder(&self) -> (r: Option<&str>)
        ensures
            match r {
                Some(p) => self.spec_placeholder() == Some(p@),
                None => self.spec_placeholder() is None,
            },
    {
        match &self.placeholder {
            Some(p) => Some(p.as_str()),
            None => None,
        }
    }

    /// The content before the cursor.
    pub fn pre_cursor(&self) -> (r: &str)
        requires
            self.wf(),
        ensures
            r@ == self.spec_content().take(self.spec_cursor()),
    {
        self.content.as_str().substring_char(0, self.cursor)
    }
}

} // verus!
