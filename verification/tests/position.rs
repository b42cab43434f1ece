use oma_inquire::position::{recompute_position, Position};

#[test]
fn end_position_simple_ascii() {
    let (end, snap) = recompute_position("hello", 80, None);
    assert_eq!(end, Position { row: 0, col: 5 });
    assert!(snap.is_none());
}

#[test]
fn end_position_with_newlines() {
    let (end, _) = recompute_position("ab\ncd", 80, None);
    assert_eq!(end, Position { row: 1, col: 2 });
}

#[test]
fn wrap_when_row_is_full() {
    // width 3: "abc" fills the row, "d" wraps onto the next one
    let (end, _) = recompute_position("abcd", 3, None);
    assert_eq!(end, Position { row: 1, col: 1 });
}

#[test]
fn wrap_moves_wide_glyph_whole() {
    // a two-cell glyph that no longer fits lands whole on the next row
    let (end, _) = recompute_position("a\u{4E16}", 2, None);
    assert_eq!(end, Position { row: 1, col: 2 });
}

#[test]
fn wide_glyph_width_counts_two_cells() {
    let (end, _) = recompute_position("\u{4E16}", 80, None);
    assert_eq!(end, Position { row: 0, col: 2 });
}

#[test]
fn zero_width_glyphs_keep_column_zero() {
    // combining acute accents are zero-width: no column movement, no wrap
    let (end, _) = recompute_position("\u{0301}\u{0301}\u{0301}\u{0301}", 1, None);
    assert_eq!(end, Position { row: 0, col: 0 });
}

#[test]
fn column_stays_within_width() {
    let texts = ["hello world, this wraps a few times", "ab\ncdefghijk\n", "\u{4E16}\u{754C}x\u{4E16}"];
    for w in 3u16..10u16 {
        for t in texts.iter() {
            let (end, _) = recompute_position(t, w, None);
            assert!(end.col <= w);
        }
    }
}

#[test]
fn cursor_resolves_before_marked_character() {
    // cursor parked before "b": same row, pre-advance column
    let (_, snap) = recompute_position("abc", 80, Some(1));
    assert_eq!(snap, Some(Position { row: 0, col: 1 }));
}

#[test]
fn cursor_on_wrapped_character_lands_at_row_start() {
    // "d" wraps to the next row; the cursor before it sits at column 0
    let (_, snap) = recompute_position("abcd", 3, Some(3));
    assert_eq!(snap, Some(Position { row: 1, col: 0 }));
}

#[test]
fn cursor_offset_zero_on_empty_content_is_origin() {
    // no snapshot is resolved during the walk, and the end position the
    // cursor falls back to is the origin
    let (end, snap) = recompute_position("", 80, Some(0));
    assert!(snap.is_none());
    assert_eq!(end, Position { row: 0, col: 0 });
}

#[test]
fn cursor_past_end_yields_no_snapshot() {
    let (_, snap) = recompute_position("abc", 80, Some(3));
    assert!(snap.is_none());
}
