//! An in-memory terminal driver.
//!
//! It implements the full driver contract without touching any real
//! device: writes land in the mirror buffer and the span log, key
//! events come from a queue filled in advance, cursor motions and
//! cleared rows are counted. It backs the crate's tests and any host
//! that wants to render off-screen.

use vstd::prelude::*;

use crate::style::SpanSpec;
use crate::style::Styled;
use crate::style::plain_span;
use crate::terminal::CursorOp;
use crate::terminal::Key;
use crate::terminal::TermError;
use crate::terminal::Terminal;
use crate::terminal::TerminalSize;

verus! {

/// A driver that renders into memory. `cleared_count` saturates at
/// `u64::MAX`; the ghost count it reflects does not.
pub struct MemoryTerminal {
    content: String,
    emitted: Ghost<Seq<SpanSpec>>,
    motions: Ghost<Seq<CursorOp>>,
    cleared: Ghost<nat>,
    cleared_count: u64,
    size: Option<TerminalSize>,
    keys: Vec<Key>,
    cursor_visible: bool,
}

impl MemoryTerminal {
    /// A terminal of the given dimensions, with an empty frame, no
    /// pending keys and a visible cursor.
    pub fn new(width: u16, height: u16) -> (r: Self)
        ensures
            r.buffer() == Seq::<char>::empty(),
            r.spans() == Seq::<SpanSpec>::empty(),
            r.cursor_ops() == Seq::<CursorOp>::empty(),
            r.lines_cleared() == 0,
            r.reported_size() == Some(TerminalSize { width, height }),
            r.cursor_shown(),
    {
        MemoryTerminal {
            content: String::new(),
            emitted: Ghost(Seq::empty()),
            motions: Ghost(Seq::empty()),
            cleared: Ghost(0),
            cleared_count: 0,
            size: Some(TerminalSize { width, height }),
            keys: Vec::new(),
            cursor_visible: true,
        }
    }

    /// A terminal whose size query fails, driving callers onto their
    /// fallback dimensions.
    pub fn without_size() -> (r: Self)
        ensures
            r.buffer() == Seq::<char>::empty(),
            r.spans() == Seq::<SpanSpec>::empty(),
            r.cursor_ops() == Seq::<CursorOp>::empty(),
            r.lines_cleared() == 0,
            r.reported_size() is None,
            r.cursor_shown(),
    {
        MemoryTerminal {
            content: String::new(),
            emitted: Ghost(Seq::empty()),
            motions: Ghost(Seq::empty()),
            cleared: Ghost(0),
            cleared_count: 0,
            size: None,
            keys: Vec::new(),
            cursor_visible: true,
        }
    }

    /// Queue a key event for a later `read_key`.
    pub fn queue_key(&mut self, key: Key)
        ensures
            final (self).buffer() == old(self).buffer(),
            final (self).spans() == old(self).spans(),
            final (self).cursor_ops() == old(self).cursor_ops(),
            final (self).cursor_shown() == old(self).cursor_shown(),
            final (self).lines_cleared() == old(self).lines_cleared(),
    {
        self.keys.push(key);
    }

    /// How many rows have been cleared, saturating at `u64::MAX`.
    pub fn cleared_lines(&self) -> u64 {
        self.cleared_count
    }

    /// Whether the cursor is currently shown.
    pub fn cursor_visible(&self) -> (r: bool)
        ensures
            r == self.cursor_shown(),
    {
        self.cursor_visible
    }
}

impl Terminal for MemoryTerminal {
    closed spec fn buffer(&self) -> Seq<char> {
        self.content@
    }

    closed spec fn spans(&self) -> Seq<SpanSpec> {
        self.emitted@
    }

    closed spec fn cursor_ops(&self) -> Seq<CursorOp> {
        self.motions@
    }

    closed spec fn cursor_shown(&self) -> bool {
        self.cursor_visible
    }

    closed spec fn lines_cleared(&self) -> nat {
        self.cleared@
    }

    closed spec fn reported_size(&self) -> Option<TerminalSize> {
        self.size
    }

    fn get_size(&self) -> (r: Result<TerminalSize, TermError>) {
        match self.size {
            Some(s) => Ok(s),
            None => Err(TermError),
        }
    }

    fn read_key(&mut self) -> (r: Result<Key, TermError>) {
        if self.keys.len() > 0 {
            Ok(self.keys.remove(0))
        } else {
            Err(TermError)
        }
    }

    fn cursor_hide(&mut self) -> (r: Result<(), TermError>) {
        self.cursor_visible = false;
        Ok(())
    }

    fn cursor_show(&mut self) -> (r: Result<(), TermError>) {
        self.cursor_visible = true;
        Ok(())
    }

    fn cursor_up(&mut self, n: u16) -> (r: Result<(), TermError>) {
        self.motions = Ghost(self.motions@.push(CursorOp::Up(n)));
        Ok(())
    }

    fn cursor_down(&mut self, n: u16) -> (r: Result<(), TermError>) {
        self.motions = Ghost(self.motions@.push(CursorOp::Down(n)));
        Ok(())
    }

    fn cursor_move_to_column(&mut self, idx: u16) -> (r: Result<(), TermError>) {
        self.motions = Ghost(self.motions@.push(CursorOp::Column(idx)));
        Ok(())
    }

    fn write(&mut self, val: &str) -> (r: Result<(), TermError>) {
        self.content.append(val);
        self.emitted = Ghost(self.emitted@.push(plain_span(val@)));
        Ok(())
    }

    fn write_styled(&mut self, val: &Styled) -> (r: Result<(), TermError>) {
        self.content.append(val.content.as_str());
        self.emitted = Ghost(self.emitted@.push(val@));
        Ok(())
    }

    fn clear_current_line(&mut self) -> (r: Result<(), TermError>) {
        self.cleared = Ghost(self.cleared@ + 1);
        self.cleared_count = if self.cleared_count < u64::MAX {
            self.cleared_count + 1
        } else {
            self.cleared_count
        };
        Ok(())
    }

    fn flush(&mut self) -> (r: Result<(), TermError>) {
        Ok(())
    }

    fn get_in_memory_content(&self) -> (r: String) {
        self.content.clone()
    }

    fn clear_in_memory_content(&mut self) {
        self.content = String::new();
    }
}

} // verus!
