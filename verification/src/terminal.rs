//! The terminal driver boundary.
//!
//! The driver owns raw escape-code emission and key decoding; the
//! renderer relies on four observables: the mirror buffer of the text
//! written this frame (for width and position accounting), the log of
//! styled spans handed to the driver, the log of cursor motions it has
//! performed, and the cursor's visibility.

use vstd::prelude::*;

use crate::style::SpanSpec;
use crate::style::Styled;
use crate::style::plain_span;

verus! {

/// The single I/O failure kind from the terminal boundary.
#[derive(Clone, Copy, Debug, PartialEq, Eq, Structural)]
pub struct TermError;

/// Terminal dimensions in cells.
#[derive(Clone, Copy, Debug, PartialEq, Eq, Structural)]
pub struct TerminalSize {
    pub width: u16,
    pub height: u16,
}

/// A discrete key event decoded by the driver.
#[derive(Clone, Copy, Debug, PartialEq, Eq, Structural)]
pub enum Key {
    Enter,
    Escape,
    Up,
    Down,
    Space,
    Backspace,
    Char(char),
}

/// One cursor motion performed by the driver: up or down a number of
/// rows, or a jump to a column of the current row.
#[derive(Clone, Copy, Debug, PartialEq, Eq, Structural)]
pub enum CursorOp {
    Up(u16),
    Down(u16),
    Column(u16),
}

/// A terminal driver.
///
/// Every writing operation mirrors the text it emits into an in-memory
/// buffer, which the renderer walks to reproduce the terminal's
/// soft-wrap behavior, and appends the emitted span (text and style) to
/// a log; `cursor_ops` records the cursor motions that succeeded;
/// `cursor_shown` is the visibility last applied with success; and
/// `lines_cleared` counts the rows erased by `clear_current_line` over
/// the driver's lifetime.
pub trait Terminal: Sized {
    /// The text written this frame, as mirrored in memory.
    spec fn buffer(&self) -> Seq<char>;

    /// Every span handed to the driver, in order, over its lifetime.
    spec fn spans(&self) -> Seq<SpanSpec>;

    /// Every cursor motion the driver has performed, in order.
    spec fn cursor_ops(&self) -> Seq<CursorOp>;

    /// Whether the cursor is shown, as last successfully applied.
    spec fn cursor_shown(&self) -> bool;

    /// How many rows `clear_current_line` has erased so far.
    spec fn lines_cleared(&self) -> nat;

    /// The dimensions this driver will report, or `None` when the query
    /// fails.
    spec fn reported_size(&self) -> Option<TerminalSize>;

    fn get_size(&self) -> (r: Result<TerminalSize, TermError>)
        ensures
            match r {
                Ok(s) => self.reported_size() == Some(s),
                Err(_) => self.reported_size() is None,
            },
    ;

    fn read_key(&mut self) -> (r: Result<Key, TermError>)
        ensures
            final (self).buffer() == old(self).buffer(),
            final (self).spans() == old(self).spans(),
            final (self).cursor_ops() == old(self).cursor_ops(),
            final (self).cursor_shown() == old(self).cursor_shown(),
            final (self).lines_cleared() == old(self).lines_cleared(),
    ;

    fn cursor_hide(&mut self) -> (r: Result<(), TermError>)
        ensures
            final (self).buffer() == old(self).buffer(),
            final (self).spans() == old(self).spans(),
            final (self).cursor_ops() == old(self).cursor_ops(),
            final (self).lines_cleared() == old(self).lines_cleared(),
            r is Ok ==> !final (self).cursor_shown(),
            r is Err ==> final (self).cursor_shown() == old(self).cursor_shown(),
    ;

    fn cursor_show(&mut self) -> (r: Result<(), TermError>)
        ensures
            final (self).buffer() == old(self).buffer(),
            final (self).spans() == old(self).spans(),
            final (self).cursor_ops() == old(self).cursor_ops(),
            final (self).lines_cleared() == old(self).lines_cleared(),
            r is Ok ==> final (self).cursor_shown(),
            r is Err ==> final (self).cursor_shown() == old(self).cursor_shown(),
    ;

    fn cursor_up(&mut self, n: u16) -> (r: Result<(), TermError>)
        ensures
            final (self).buffer() == old(self).buffer(),
            final (self).spans() == old(self).spans(),
            final (self).cursor_shown() == old(self).cursor_shown(),
            final (self).lines_cleared() == old(self).lines_cleared(),
            r is Ok ==> final (self).cursor_ops() == old(self).cursor_ops().push(CursorOp::Up(n)),
            r is Err ==> final (self).cursor_ops() == old(self).cursor_ops(),
    ;

    fn cursor_down(&mut self, n: u16) -> (r: Result<(), TermError>)
        ensures
            final (self).buffer() == old(self).buffer(),
            final (self).spans() == old(self).spans(),
            final (self).cursor_shown() == old(self).cursor_shown(),
            final (self).lines_cleared() == old(self).lines_cleared(),
            r is Ok ==> final (self).cursor_ops() == old(self).cursor_ops().push(
                CursorOp::Down(n),
            ),
            r is Err ==> final (self).cursor_ops() == old(self).cursor_ops(),
    ;

    fn cursor_move_to_column(&mut self, idx: u16) -> (r: Result<(), TermError>)
        ensures
            final (self).buffer() == old(self).buffer(),
            final (self).spans() == old(self).spans(),
            final (self).cursor_shown() == old(self).cursor_shown(),
            final (self).lines_cleared() == old(self).lines_cleared(),
            r is Ok ==> final (self).cursor_ops() == old(self).cursor_ops().push(
                CursorOp::Column(idx),
            ),
            r is Err ==> final (self).cursor_ops() == old(self).cursor_ops(),
    ;

    fn write(&mut self, val: &str) -> (r: Result<(), TermError>)
        ensures
            final (self).cursor_ops() == old(self).cursor_ops(),
            final (self).cursor_shown() == old(self).cursor_shown(),
            final (self).lines_cleared() == old(self).lines_cleared(),
            r is Ok ==> final (self).buffer() == old(self).buffer() + val@,
            r is Ok ==> final (self).spans() == old(self).spans().push(plain_span(val@)),
    ;

    fn write_styled(&mut self, val: &Styled) -> (r: Result<(), TermError>)
        ensures
            final (self).cursor_ops() == old(self).cursor_ops(),
            final (self).cursor_shown() == old(self).cursor_shown(),
            final (self).lines_cleared() == old(self).lines_cleared(),
            r is Ok ==> final (self).buffer() == old(self).buffer() + val.content@,
            r is Ok ==> final (self).spans() == old(self).spans().push(val@),
    ;

    fn clear_current_line(&mut self) -> (r: Result<(), TermError>)
        ensures
            final (self).buffer() == old(self).buffer(),
            final (self).spans() == old(self).spans(),
            final (self).cursor_ops() == old(self).cursor_ops(),
            final (self).cursor_shown() == old(self).cursor_shown(),
            r is Ok ==> final (self).lines_cleared() == old(self).lines_cleared() + 1,
            r is Err ==> final (self).lines_cleared() == old(self).lines_cleared(),
    ;

    fn flush(&mut self) -> (r: Result<(), TermError>)
        ensures
            final (self).buffer() == old(self).buffer(),
            final (self).spans() == old(self).spans(),
            final (self).cursor_ops() == old(self).cursor_ops(),
            final (self).cursor_shown() == old(self).cursor_shown(),
            final (self).lines_cleared() == old(self).lines_cleared(),
    ;

    fn get_in_memory_content(&self) -> (r: String)
        ensures
            r@ == self.buffer(),
    ;

    fn clear_in_memory_content(&mut self)
        ensures
            final (self).buffer() == Seq::<char>::empty(),
            final (self).spans() == old(self).spans(),
            final (self).cursor_ops() == old(self).cursor_ops(),
            final (self).cursor_shown() == old(self).cursor_shown(),
            final (self).lines_cleared() == old(self).lines_cleared(),
    ;
}

} // verus!
