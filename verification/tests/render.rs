use std::collections::BTreeSet;

use oma_inquire::backend::{option_value_span, Backend};
use oma_inquire::input::Input;
use oma_inquire::mem_terminal::MemoryTerminal;
use oma_inquire::options::{ListOption, Page};
use oma_inquire::position::Position;
use oma_inquire::render_config::RenderConfig;
use oma_inquire::style::{Color, IndexPrefix, StyleSheet};
use oma_inquire::terminal::{Key, TermError, Terminal, TerminalSize};
use oma_inquire::validator::ErrorMessage;

fn backend() -> Backend<MemoryTerminal> {
    Backend::new(MemoryTerminal::new(80, 24), RenderConfig::default()).unwrap()
}

fn page_of(values: &[&str], indices: &[usize], first: bool, last: bool, cursor: Option<usize>, total: usize) -> Page<ListOption> {
    let mut content = Vec::new();
    for (v, i) in values.iter().zip(indices.iter()) {
        content.push(ListOption::new(*i, v));
    }
    Page { first, last, content, cursor, total }
}

#[test]
fn new_backend_starts_at_origin() {
    let b = backend();
    assert_eq!(b.prompt_current_position, Position { row: 0, col: 0 });
    assert_eq!(b.prompt_end_position, Position { row: 0, col: 0 });
    assert!(b.prompt_cursor_offset.is_none());
    assert!(b.prompt_cursor_position.is_none());
    assert!(!b.show_cursor);
    assert_eq!(b.terminal_size, TerminalSize { width: 80, height: 24 });
}

#[test]
fn failed_size_query_falls_back_to_large_default() {
    let b = Backend::new(MemoryTerminal::without_size(), RenderConfig::default()).unwrap();
    assert_eq!(b.terminal_size, TerminalSize { width: 1000, height: 1000 });
}

#[test]
fn checked_rows_use_selected_checkbox() {
    // checked = {2, 5}; page holds absolute indices [1, 2, 3]: only the
    // row for index 2 shows the selected glyph
    let mut b = backend();
    let page = page_of(&["a", "b", "c"], &[1, 2, 3], true, true, None, 3);
    let mut checked = BTreeSet::new();
    checked.insert(2);
    checked.insert(5);
    b.render_options(page, &checked).unwrap();
    assert_eq!(
        b.terminal.get_in_memory_content(),
        "  [ ] a\r\n  [x] b\r\n  [ ] c\r\n"
    );
}

#[test]
fn scroll_up_prefix_on_first_row_of_later_page() {
    // first = false, last = true: the scroll-up indicator marks row 0
    // and no scroll-down indicator marks the final row
    let mut b = backend();
    let page = page_of(&["a", "b", "c"], &[4, 5, 6], false, true, None, 7);
    let checked = BTreeSet::new();
    b.render_options(page, &checked).unwrap();
    assert_eq!(
        b.terminal.get_in_memory_content(),
        "^ [ ] a\r\n  [ ] b\r\n  [ ] c\r\n"
    );
}

#[test]
fn cursor_row_takes_precedence_over_scroll_indicator() {
    let mut b = backend();
    let page = page_of(&["a", "b", "c"], &[4, 5, 6], false, true, Some(0), 7);
    let checked = BTreeSet::new();
    b.render_options(page, &checked).unwrap();
    assert_eq!(
        b.terminal.get_in_memory_content(),
        "> [ ] a\r\n  [ ] b\r\n  [ ] c\r\n"
    );
}

#[test]
fn scroll_down_prefix_on_last_row_of_earlier_page() {
    let mut b = backend();
    let page = page_of(&["a", "b", "c"], &[0, 1, 2], true, false, None, 7);
    let checked = BTreeSet::new();
    b.render_options(page, &checked).unwrap();
    assert_eq!(
        b.terminal.get_in_memory_content(),
        "  [ ] a\r\n  [ ] b\r\nv [ ] c\r\n"
    );
}

#[test]
fn option_block_end_to_end() {
    // prompt "Pick one", options a/b/c on one page, cursor on "b":
    // three rows, each ending in a line break, with the highlight on b
    let mut b = backend();
    b.print_prompt("Pick one").unwrap();
    b.new_line().unwrap();
    let page = page_of(&["a", "b", "c"], &[0, 1, 2], true, true, Some(1), 3);
    let checked = BTreeSet::new();
    b.render_options(page, &checked).unwrap();
    let out = b.terminal.get_in_memory_content();
    assert_eq!(out, "? Pick one\r\n  [ ] a\r\n> [ ] b\r\n  [ ] c\r\n");
    assert_eq!(out.matches("\r\n").count(), 4);
}

#[test]
fn cursor_row_value_uses_selected_style() {
    let cfg = RenderConfig::default();
    let page = page_of(&["a", "b", "c"], &[0, 1, 2], true, true, Some(1), 3);
    let span = option_value_span(&cfg, 1, &page.content[1], &page);
    assert_eq!(span.content, "b");
    assert_eq!(span.style, StyleSheet::with_fg(Color::Cyan));
    let other = option_value_span(&cfg, 0, &page.content[0], &page);
    assert_eq!(other.style, StyleSheet::empty());
}

#[test]
fn space_padded_index_prefix() {
    // total = 105, so the largest ordinal 106 has 3 digits: ordinal 7
    // renders space-padded as "  7)"
    let mut cfg = RenderConfig::default();
    cfg.option_index_prefix = IndexPrefix::SpacePadded;
    let mut b = Backend::new(MemoryTerminal::new(80, 24), cfg).unwrap();
    b.print_option_index_prefix(6, 105).unwrap().unwrap();
    assert_eq!(b.terminal.get_in_memory_content(), "  7)");
}

#[test]
fn zero_padded_index_prefix() {
    let mut cfg = RenderConfig::default();
    cfg.option_index_prefix = IndexPrefix::ZeroPadded;
    let mut b = Backend::new(MemoryTerminal::new(80, 24), cfg).unwrap();
    b.print_option_index_prefix(6, 105).unwrap().unwrap();
    assert_eq!(b.terminal.get_in_memory_content(), "007)");
}

#[test]
fn simple_index_prefix() {
    let mut cfg = RenderConfig::default();
    cfg.option_index_prefix = IndexPrefix::Simple;
    let mut b = Backend::new(MemoryTerminal::new(80, 24), cfg).unwrap();
    b.print_option_index_prefix(11, 105).unwrap().unwrap();
    assert_eq!(b.terminal.get_in_memory_content(), "12)");
}

#[test]
fn omitted_index_prefix_writes_nothing() {
    let mut b = backend();
    assert!(b.print_option_index_prefix(6, 105).is_none());
    assert_eq!(b.terminal.get_in_memory_content(), "");
}

#[test]
fn begin_frame_clears_exactly_previous_rows() {
    // the frame below ends on row 2; the next begin-frame must clear
    // exactly 2 terminal rows
    let mut b = backend();
    b.frame_setup().unwrap();
    b.terminal.write("one\r\ntwo\r\nthree").unwrap();
    b.frame_finish().unwrap();
    assert_eq!(b.prompt_end_position.row, 2);
    let cleared_before = b.terminal.cleared_lines();
    b.frame_setup().unwrap();
    assert_eq!(b.terminal.cleared_lines() - cleared_before, 2);
    assert_eq!(b.terminal.get_in_memory_content(), "");
    assert_eq!(b.prompt_end_position, Position { row: 0, col: 0 });
    assert!(b.prompt_cursor_offset.is_none());
}

#[test]
fn first_begin_frame_clears_nothing() {
    let mut b = backend();
    let before = b.terminal.cleared_lines();
    b.frame_setup().unwrap();
    assert_eq!(b.terminal.cleared_lines(), before);
}

#[test]
fn finish_on_empty_frame_stays_at_origin() {
    let mut b = backend();
    b.frame_setup().unwrap();
    b.frame_finish().unwrap();
    assert_eq!(b.prompt_current_position, Position { row: 0, col: 0 });
    assert_eq!(b.prompt_end_position, Position { row: 0, col: 0 });
}

#[test]
fn prompt_with_input_marks_and_resolves_cursor() {
    let mut b = backend();
    b.frame_setup().unwrap();
    let input = Input::new("").with_cursor(0);
    b.print_prompt_with_input("Name", Some("bob"), &input).unwrap();
    assert_eq!(b.terminal.get_in_memory_content(), "? Name (bob)  \r\n");
    assert_eq!(b.prompt_cursor_offset, Some(13));
    b.frame_finish().unwrap();
    assert_eq!(b.prompt_end_position, Position { row: 1, col: 0 });
    assert_eq!(b.prompt_cursor_position, Some(Position { row: 0, col: 13 }));
    assert_eq!(b.prompt_current_position, Position { row: 0, col: 13 });
    assert!(b.show_cursor);
    // frame end applied the requested visibility to the device
    assert!(b.terminal.cursor_visible());
}

#[test]
fn input_renders_placeholder_when_empty() {
    let mut b = backend();
    let input = Input::new("").with_placeholder("type here").with_cursor(0);
    b.print_input(&input).unwrap();
    assert_eq!(b.terminal.get_in_memory_content(), " type here ");
}

#[test]
fn input_renders_content_over_placeholder() {
    let mut b = backend();
    let input = Input::new("abc").with_placeholder("type here").with_cursor(1);
    b.print_input(&input).unwrap();
    // cursor not at the end: no trailing space
    assert_eq!(b.terminal.get_in_memory_content(), " abc");
}

#[test]
fn canceled_prompt_renders_indicator() {
    let mut b = backend();
    b.render_canceled_prompt("Pick one").unwrap();
    assert_eq!(b.terminal.get_in_memory_content(), "? Pick one <canceled>\r\n");
}

#[test]
fn answered_prompt_renders_answer() {
    let mut b = backend();
    b.render_prompt_with_answer("Pick one", "b").unwrap();
    assert_eq!(b.terminal.get_in_memory_content(), "> Pick one b\r\n");
}

#[test]
fn error_message_renders_default_text() {
    let mut b = backend();
    b.render_error_message(&ErrorMessage::Standard).unwrap();
    assert_eq!(b.terminal.get_in_memory_content(), "# Invalid input.\r\n");
}

#[test]
fn error_message_renders_custom_text() {
    let mut b = backend();
    b.render_error_message(&ErrorMessage::Custom(String::from("too long"))).unwrap();
    assert_eq!(b.terminal.get_in_memory_content(), "# too long\r\n");
}

#[test]
fn help_message_renders_between_line_breaks() {
    let mut b = backend();
    b.render_help_message("press space to select").unwrap();
    assert_eq!(b.terminal.get_in_memory_content(), "\r\npress space to select\r\n");
}

#[test]
fn multiselect_prompt_renders_prompt_and_input() {
    let mut b = backend();
    let input = Input::new("fil").with_cursor(3);
    b.render_multiselect_prompt("Choose", &input).unwrap();
    assert_eq!(b.terminal.get_in_memory_content(), "? Choose fil \r\n");
}

#[test]
fn restore_cursor_reshows_cursor() {
    let mut b = backend();
    b.frame_setup().unwrap();
    assert!(!b.terminal.cursor_visible());
    b.restore_cursor().unwrap();
    assert!(b.terminal.cursor_visible());
}

#[test]
fn read_key_returns_queued_events() {
    let mut t = MemoryTerminal::new(80, 24);
    t.queue_key(Key::Char('x'));
    t.queue_key(Key::Enter);
    let mut b = Backend::new(t, RenderConfig::default()).unwrap();
    assert_eq!(b.read_key().unwrap(), Key::Char('x'));
    assert_eq!(b.read_key().unwrap(), Key::Enter);
    assert_eq!(b.read_key(), Err(TermError));
}
