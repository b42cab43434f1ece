//! Position bookkeeping under terminal soft-wrap.
//!
//! The tracker walks the full frame text glyph by glyph, reproducing the
//! terminal's own automatic wrapping, so the renderer knows exactly which
//! (row, col) the end of its output occupies and where the logical input
//! cursor sits on screen.

use vstd::prelude::*;

use crate::width::display_width;
use crate::width::glyph_width;

verus! {

/// Offset in terminal cells from the top-left of the rendered block.
#[derive(Clone, Copy, Debug, PartialEq, Eq, Structural)]
pub struct Position {
    pub row: u16,
    pub col: u16,
}

impl Default for Position {
    fn default() -> (r: Self)
        ensures
            r.row == 0 && r.col == 0,
    {
        Position { row: 0, col: 0 }
    }
}

/// The next row index, saturating at the largest representable row.
pub open spec fn sat_next_row(row: int) -> int {
    if row < 0xffff {
        row + 1
    } else {
        row
    }
}

/// One step of the wrap emulation for a glyph of width `w` (not a line
/// break): zero-width glyphs never move the position; a glyph that still
/// fits on the current row advances the column; otherwise the terminal
/// wraps and the glyph lands at the start of the next row.
pub open spec fn glyph_step(row: int, col: int, w: int, width: int) -> (int, int) {
    if w == 0 {
        (row, col)
    } else if col + w <= width {
        (row, col + w)
    } else {
        (sat_next_row(row), w)
    }
}

/// One step of the walk for an arbitrary character: a newline moves to
/// the start of the next row, anything else advances by its glyph width.
pub open spec fn char_step(row: int, col: int, c: char, width: int) -> (int, int) {
    if c == '\n' {
        (sat_next_row(row), 0)
    } else {
        glyph_step(row, col, glyph_width(c) as int, width)
    }
}

/// The (row, col) of the end of `text` on a terminal `width` cells wide,
/// starting from the top-left of the rendered block.
pub open spec fn walk(text: Seq<char>, width: int) -> (int, int)
    decreases text.len(),
{
    if text.len() == 0 {
        (0, 0)
    } else {
        let prev = walk(text.drop_last(), width);
        char_step(prev.0, prev.1, text.last(), width)
    }
}

/// The column where the cursor sits when placed *before* the character
/// whose post-advance column is `col_after`: the glyph's own width is
/// taken back, clamped at the start of the row.
pub open spec fn snap_col(col_after: int, c: char) -> int {
    if col_after - glyph_width(c) >= 0 {
        col_after - glyph_width(c)
    } else {
        0
    }
}

/// The screen position of the logical cursor parked before the character
/// at `offset`, or `None` when the offset lies at or beyond the end of
/// the text.
pub open spec fn resolved_cursor(text: Seq<char>, width: int, offset: int) -> Option<(int, int)> {
    if 0 <= offset < text.len() {
        let after = walk(text.take(offset + 1), width);
        Some((after.0, snap_col(after.1, text[offset])))
    } else {
        None
    }
}

/// Law: a string made only of zero-width glyphs leaves the column at 0,
/// however long it is.
pub proof fn lemma_zero_width_keeps_col(text: Seq<char>, width: int)
    requires
        forall|i: int| 0 <= i < text.len() ==> glyph_width(#[trigger] text[i]) == 0,
    ensures
        walk(text, width).1 == 0,
    decreases text.len(),
{
    if text.len() > 0 {
        let prefix = text.drop_last();
        assert(forall|i: int| 0 <= i < prefix.len() ==> glyph_width(#[trigger] prefix[i]) == 0);
        lemma_zero_width_keeps_col(prefix, width);
        assert(glyph_width(text.last()) == 0);
    }
}

/// Law: appending one glyph of width `w > 0` when the current row has
/// fewer than `w` columns remaining moves to the next row, at column `w`.
pub proof fn lemma_wrap_advances_row(row: int, col: int, w: int, width: int)
    requires
        0 < w,
        width - col < w,
        0 <= row < 0xffff,
    ensures
        glyph_step(row, col, w, width) == (row + 1, w),
{
}

/// Recompute the end position of the accumulated frame text, and resolve
/// the screen position of the logical cursor at `cursor_offset` if that
/// offset falls inside the text.
pub fn recompute_position(text: &str, width: u16, cursor_offset: Option<usize>) -> (r: (
    Position,
    Option<Position>,
))
    ensures
        r.0.row as int == walk(text@, width as int).0,
        r.0.col as int == walk(text@, width as int).1,
        width >= 3 ==> r.0.col <= width,
        (forall|i: int|
            0 <= i < text@.len() ==> glyph_width(#[trigger] text@[i]) == 0) ==> r.0.col == 0,
        match (cursor_offset, r.1) {
            (Some(off), Some(p)) => off < text@.len() && resolved_cursor(
                text@,
                width as int,
                off as int,
            ) == Some((p.row as int, p.col as int)),
            (Some(off), None) => off >= text@.len(),
            (None, opt) => opt is None,
        },
{
    let n = text.unicode_len();
    let mut row: u16 = 0;
    let mut col: u16 = 0;
    let mut snap: Option<Position> = None;
    let mut i: usize = 0;
    while i < n
        invariant
            0 <= i <= n,
            n == text@.len(),
            row as int == walk(text@.take(i as int), width as int).0,
            col as int == walk(text@.take(i as int), width as int).1,
            col <= width || col <= 3,
            match (cursor_offset, snap) {
                (Some(off), Some(p)) => off < i && resolved_cursor(
                    text@,
                    width as int,
                    off as int,
                ) == Some((p.row as int, p.col as int)),
                (Some(off), None) => off >= i,
                (None, opt) => opt is None,
            },
        decreases n - i,
    {
        let c = text.get_char(i);
        let w = display_width(c);
        let ghost prev_row = row as int;
        let ghost prev_col = col as int;
        if c == '\n' {
            row = if row < 0xffff {
                row + 1
            } else {
                row
            };
            col = 0;
        } else if w == 0 {
            // zero-width glyphs never trigger a wrap decision
        } else if w <= width && col <= width - w {
            col = col + w;
        } else {
            row = if row < 0xffff {
                row + 1
            } else {
                row
            };
            col = w;
        }
        proof {
            assert((row as int, col as int) == char_step(
                prev_row,
                prev_col,
                text@[i as int],
                width as int,
            ));
            assert(text@.take(i + 1).drop_last() =~= text@.take(i as int));
            assert(text@.take(i + 1).last() == text@[i as int]);
        }
        if let Some(off) = cursor_offset {
            if off == i {
                snap = Some(Position { row, col: col.saturating_sub(w) });
                proof {
                    assert(col.saturating_sub(w) as int == snap_col(col as int, text@[i as int]));
                }
            }
        }
        i = i + 1;
    }
    proof {
        assert(text@.take(n as int) =~= text@);
        if forall|j: int| 0 <= j < text@.len() ==> glyph_width(#[trigger] text@[j]) == 0 {
            lemma_zero_width_keeps_col(text@, width as int);
        }
    }
    (Position { row, col }, snap)
}

} // verus!
