//! The renderer bound to a terminal handle and a configuration
//! snapshot: frame lifecycle, prompt/option drawing, and the position
//! bookkeeping that keeps erase-and-repaint free of drift.

use vstd::prelude::*;

use std::collections::BTreeSet;

use crate::input::Input;
use crate::num_fmt::dec_digits;
use crate::num_fmt::dec_string;
use crate::num_fmt::format_index;
use crate::num_fmt::index_prefix_text;
use crate::num_fmt::int_log10;
use crate::num_fmt::padded_index;
use crate::num_fmt::sat_inc_usize;
use crate::num_fmt::spec_int_log10;
use crate::options::ListOption;
use crate::options::Page;
use crate::position::Position;
use crate::position::recompute_position;
use crate::position::resolved_cursor;
use crate::position::walk;
use crate::render_config::RenderConfig;
use crate::style::IndexPrefix;
use crate::style::SpanSpec;
use crate::style::Styled;
use crate::style::empty_style;
use crate::style::plain_span;
use crate::terminal::CursorOp;
use crate::terminal::Key;
use crate::terminal::TermError;
use crate::terminal::Terminal;
use crate::terminal::TerminalSize;
use crate::validator::ErrorMessage;

verus! {

broadcast use vstd::std_specs::btree::group_btree_axioms, vstd::laws_cmp::group_laws_cmp;

/// The sum of two counts, saturating at the largest `usize`.
pub open spec fn sat_add_usize(a: int, b: int) -> int {
    if a + b <= usize::MAX {
        a + b
    } else {
        usize::MAX as int
    }
}

/// The line break the renderer emits after every rendered line.
pub open spec fn newline_text() -> Seq<char> {
    seq!['\r', '\n']
}

/// A prompt line: the prefix span, one space, the prompt text.
pub open spec fn spec_prompt_text(prefix: SpanSpec, prompt: Seq<char>) -> Seq<char> {
    prefix.text + seq![' '] + prompt
}

/// A parenthesized default value.
pub open spec fn spec_default_value_text(value: Seq<char>) -> Seq<char> {
    seq!['('] + value + seq![')']
}

/// The live input line: a leading space; then the placeholder when the
/// content is empty, else the content; then one extra space when the
/// cursor sits exactly at the end of the content, so the physical
/// cursor does not collide with a trailing wrap boundary.
pub open spec fn spec_input_text(input: Input) -> Seq<char> {
    seq![' '] + (if input.spec_content().len() == 0 {
        match input.spec_placeholder() {
            Some(p) => p,
            None => Seq::<char>::empty(),
        }
    } else {
        input.spec_content()
    }) + (if input.spec_cursor() == input.spec_content().len() {
        seq![' ']
    } else {
        Seq::<char>::empty()
    })
}

/// A full prompt-with-input line, with its optional default value.
pub open spec fn spec_prompt_with_input_text(
    cfg: RenderConfig,
    prompt: Seq<char>,
    default: Option<Seq<char>>,
    input: Input,
) -> Seq<char> {
    spec_prompt_text(cfg.prompt_prefix@, prompt) + (match default {
        Some(d) => seq![' '] + spec_default_value_text(d),
        None => Seq::<char>::empty(),
    }) + spec_input_text(input) + newline_text()
}

/// The spans of a prompt line: the prefix span, an unstyled space, the
/// prompt text in the configured prompt style.
pub open spec fn spec_prompt_spans(cfg: RenderConfig, prefix: SpanSpec, prompt: Seq<char>) -> Seq<
    SpanSpec,
> {
    seq![prefix, plain_span(seq![' ']), (SpanSpec { text: prompt, style: cfg.prompt })]
}

/// The spans of the live input line: the leading space; then the
/// placeholder in placeholder style when the content is empty and the
/// placeholder non-empty, or the content in input style; then the
/// cursor-parking space when the cursor sits at the end.
pub open spec fn spec_input_spans(cfg: RenderConfig, input: Input) -> Seq<SpanSpec> {
    seq![plain_span(seq![' '])] + (if input.spec_content().len() == 0 {
        match input.spec_placeholder() {
            Some(p) => if p.len() > 0 {
                seq![(SpanSpec { text: p, style: cfg.placeholder })]
            } else {
                Seq::<SpanSpec>::empty()
            },
            None => Seq::<SpanSpec>::empty(),
        }
    } else {
        seq![(SpanSpec { text: input.spec_content(), style: cfg.text_input })]
    }) + (if input.spec_cursor() == input.spec_content().len() {
        seq![plain_span(seq![' '])]
    } else {
        Seq::<SpanSpec>::empty()
    })
}

/// The spans of a full prompt-with-input line.
pub open spec fn spec_prompt_with_input_spans(
    cfg: RenderConfig,
    prompt: Seq<char>,
    default: Option<Seq<char>>,
    input: Input,
) -> Seq<SpanSpec> {
    spec_prompt_spans(cfg, cfg.prompt_prefix@, prompt) + (match default {
        Some(d) => seq![
            plain_span(seq![' ']),
            (SpanSpec { text: spec_default_value_text(d), style: cfg.default_value }),
        ],
        None => Seq::<SpanSpec>::empty(),
    }) + spec_input_spans(cfg, input) + seq![plain_span(newline_text())]
}

/// The spans of an error line.
pub open spec fn spec_error_spans(cfg: RenderConfig, error: ErrorMessage) -> Seq<SpanSpec> {
    seq![
        cfg.error_message.prefix@,
        (SpanSpec { text: seq![' '], style: cfg.error_message.separator }),
        (SpanSpec {
            text: (match error {
                ErrorMessage::Standard => cfg.error_message.default_message@,
                ErrorMessage::Custom(m) => m@,
            }),
            style: cfg.error_message.message,
        }),
        plain_span(newline_text()),
    ]
}

/// Whether the row at `idx` is the page's highlighted row.
pub open spec fn spec_is_cursor_row(page: Page<ListOption>, idx: int) -> bool {
    match page.cursor {
        Some(c) => c as int == idx,
        None => false,
    }
}

/// The one-glyph prefix ahead of a row: the highlight marker on the
/// cursor row; else the scroll-up indicator on the first visible row of
/// a page that is not the list's first; else the scroll-down indicator
/// on the last visible row of a page that is not the list's last; else
/// a blank.
pub open spec fn spec_option_prefix(cfg: RenderConfig, idx: int, page: Page<ListOption>) -> SpanSpec {
    if spec_is_cursor_row(page, idx) {
        cfg.highlighted_option_prefix@
    } else if idx == 0 && !page.first {
        cfg.scroll_up_prefix@
    } else if idx + 1 == page.content@.len() && !page.last {
        cfg.scroll_down_prefix@
    } else {
        SpanSpec { text: seq![' '], style: empty_style() }
    }
}

/// The checkbox glyph of a row: selected or unselected by membership in
/// the checked set, restyled as the selected option when the row is the
/// page cursor row.
pub open spec fn spec_checkbox(cfg: RenderConfig, checked: bool, cursor_row: bool) -> SpanSpec {
    let base = if checked {
        cfg.selected_checkbox@
    } else {
        cfg.unselected_checkbox@
    };
    match cfg.selected_option {
        Some(st) => if cursor_row {
            SpanSpec { text: base.text, style: st }
        } else {
            base
        },
        None => base,
    }
}

/// The option's display value, in the selected-option style on the
/// cursor row and the plain option style elsewhere.
pub open spec fn spec_option_value(
    cfg: RenderConfig,
    idx: int,
    opt: ListOption,
    page: Page<ListOption>,
) -> SpanSpec {
    let st = match cfg.selected_option {
        Some(s) => if spec_is_cursor_row(page, idx) {
            s
        } else {
            cfg.option
        },
        None => cfg.option,
    };
    SpanSpec { text: opt.value@, style: st }
}

/// One full option row: prefix, space, optional index prefix with its
/// trailing space, checkbox, space, value, line break.
pub open spec fn spec_option_row(
    cfg: RenderConfig,
    page: Page<ListOption>,
    checked: Set<usize>,
    idx: int,
) -> Seq<char> {
    let opt = page.content@[idx];
    spec_option_prefix(cfg, idx, page).text + seq![' '] + (match index_prefix_text(
        cfg.option_index_prefix,
        sat_inc_usize(opt.index as int),
        page.total as int,
    ) {
        Some(t) => t + seq![' '],
        None => Seq::<char>::empty(),
    }) + spec_checkbox(cfg, checked.contains(opt.index), spec_is_cursor_row(page, idx)).text
        + seq![' '] + opt.value@ + newline_text()
}

/// The spans of one full option row, in emission order.
pub open spec fn spec_option_row_spans(
    cfg: RenderConfig,
    page: Page<ListOption>,
    checked: Set<usize>,
    idx: int,
) -> Seq<SpanSpec> {
    let opt = page.content@[idx];
    seq![spec_option_prefix(cfg, idx, page), plain_span(seq![' '])] + (match index_prefix_text(
        cfg.option_index_prefix,
        sat_inc_usize(opt.index as int),
        page.total as int,
    ) {
        Some(t) => seq![(SpanSpec { text: t, style: cfg.option }), plain_span(seq![' '])],
        None => Seq::<SpanSpec>::empty(),
    }) + seq![
        spec_checkbox(cfg, checked.contains(opt.index), spec_is_cursor_row(page, idx)),
        plain_span(seq![' ']),
        spec_option_value(cfg, idx, opt, page),
        plain_span(newline_text()),
    ]
}

/// The spans of the first `n` option rows of a page, concatenated.
pub open spec fn spec_options_block_spans(
    cfg: RenderConfig,
    page: Page<ListOption>,
    checked: Set<usize>,
    n: int,
) -> Seq<SpanSpec>
    decreases n,
{
    if n <= 0 {
        Seq::<SpanSpec>::empty()
    } else {
        spec_options_block_spans(cfg, page, checked, n - 1) + spec_option_row_spans(
            cfg,
            page,
            checked,
            n - 1,
        )
    }
}

/// The first `n` option rows of a page, concatenated.
pub open spec fn spec_options_block(
    cfg: RenderConfig,
    page: Page<ListOption>,
    checked: Set<usize>,
    n: int,
) -> Seq<char>
    decreases n,
{
    if n <= 0 {
        Seq::<char>::empty()
    } else {
        spec_options_block(cfg, page, checked, n - 1) + spec_option_row(cfg, page, checked, n - 1)
    }
}

/// An error line: the error prefix, a styled separator space, then the
/// default or custom message, and a line break.
pub open spec fn spec_error_text(cfg: RenderConfig, error: ErrorMessage) -> Seq<char> {
    cfg.error_message.prefix@.text + seq![' '] + (match error {
        ErrorMessage::Standard => cfg.error_message.default_message@,
        ErrorMessage::Custom(m) => m@,
    }) + newline_text()
}

/// The renderer: owns the terminal handle and a configuration snapshot
/// for one prompt session, and tracks where its previous output ended.
pub struct Backend<T: Terminal> {
    /// Where the physical cursor currently is, relative to the block.
    pub prompt_current_position: Position,
    /// Where the last character of the frame text sits.
    pub prompt_end_position: Position,
    /// Character offset of the logical input cursor in the frame text.
    pub prompt_cursor_offset: Option<usize>,
    /// The resolved screen position of that logical cursor.
    pub prompt_cursor_position: Option<Position>,
    /// Whether the physical cursor is shown when the frame ends.
    pub show_cursor: bool,
    pub terminal: T,
    pub terminal_size: TerminalSize,
    pub render_config: RenderConfig,
}

impl<T: Terminal> Backend<T> {
    /// Everything but the frame text is as it was: the positions, the
    /// cursor bookkeeping, the configuration and the count of cleared
    /// rows.
    pub open spec fn preserves_state(pre: Self, post: Self) -> bool {
        &&& post.prompt_current_position == pre.prompt_current_position
        &&& post.prompt_end_position == pre.prompt_end_position
        &&& post.prompt_cursor_offset == pre.prompt_cursor_offset
        &&& post.prompt_cursor_position == pre.prompt_cursor_position
        &&& post.show_cursor == pre.show_cursor
        &&& post.terminal_size == pre.terminal_size
        &&& post.render_config == pre.render_config
        &&& post.terminal.lines_cleared() == pre.terminal.lines_cleared()
    }

    /// Binds the renderer to a terminal handle and a configuration
    /// snapshot, hides the cursor, and falls back to 1000x1000 cells
    /// when the size query fails.
    pub fn new(terminal: T, render_config: RenderConfig) -> (r: Result<Self, TermError>)
        ensures
            match r {
                Ok(b) => {
                    &&& b.prompt_current_position == (Position { row: 0, col: 0 })
                    &&& b.prompt_end_position == (Position { row: 0, col: 0 })
                    &&& b.prompt_cursor_offset is None
                    &&& b.prompt_cursor_position is None
                    &&& !b.show_cursor
                    &&& b.render_config == render_config
                    &&& b.terminal.buffer() == terminal.buffer()
                    &&& b.terminal.spans() == terminal.spans()
                    &&& b.terminal.cursor_ops() == terminal.cursor_ops()
                    &&& !b.terminal.cursor_shown()
                    &&& b.terminal.lines_cleared() == terminal.lines_cleared()
                    &&& b.terminal_size == (match terminal.reported_size() {
                        Some(s) => s,
                        None => TerminalSize { width: 1000, height: 1000 },
                    })
                },
                Err(_) => true,
            },
    {
        let terminal_size = match terminal.get_size() {
            Ok(s) => s,
            Err(_) => TerminalSize { width: 1000, height: 1000 },
        };

        let mut backend = Self {
            prompt_current_position: Position::default(),
            prompt_end_position: Position::default(),
            prompt_cursor_offset: None,
            prompt_cursor_position: None,
            show_cursor: false,
            terminal,
            render_config,
            terminal_size,
        };

        match backend.terminal.cursor_hide() {
            Ok(_) => Ok(backend),
            Err(e) => Err(e),
        }
    }

    /// Recomputes the end position of the frame text, and resolves the
    /// screen position of the marked logical cursor if its offset falls
    /// inside the text.
    pub fn update_position_info(&mut self)
        ensures
            final (self).terminal == old(self).terminal,
            final (self).prompt_cursor_offset == old(self).prompt_cursor_offset,
            final (self).show_cursor == old(self).show_cursor,
            final (self).terminal_size == old(self).terminal_size,
            final (self).render_config == old(self).render_config,
            final (self).prompt_end_position.row as int == walk(
                old(self).terminal.buffer(),
                old(self).terminal_size.width as int,
            ).0,
            final (self).prompt_end_position.col as int == walk(
                old(self).terminal.buffer(),
                old(self).terminal_size.width as int,
            ).1,
            final (self).prompt_current_position == final (self).prompt_end_position,
            old(self).terminal_size.width >= 3 ==> final (self).prompt_end_position.col <= old(
                self,
            ).terminal_size.width,
            match old(self).prompt_cursor_offset {
                Some(off) => match resolved_cursor(
                    old(self).terminal.buffer(),
                    old(self).terminal_size.width as int,
                    off as int,
                ) {
                    Some(rc) => final (self).prompt_cursor_position matches Some(p) && p.row as int
                        == rc.0 && p.col as int == rc.1,
                    None => final (self).prompt_cursor_position == old(
                        self,
                    ).prompt_cursor_position,
                },
                None => final (self).prompt_cursor_position == old(self).prompt_cursor_position,
            },
    {
        let input = self.terminal.get_in_memory_content();
        let term_width = self.terminal_size.width;

        let (end, snap) = recompute_position(input.as_str(), term_width, self.prompt_cursor_offset);

        if let Some(p) = snap {
            self.prompt_cursor_position = Some(p);
        }
        self.prompt_current_position = end;
        self.prompt_end_position = end;
    }

    /// Moves the physical cursor down to the tracked end position when
    /// the current row differs from it: the driver performs exactly one
    /// downward motion by the row difference and one jump to the end
    /// column, and nothing at all when the rows agree. The frame text
    /// and all tracked state stay as they are.
    pub fn move_cursor_to_end_position(&mut self) -> (r: Result<(), TermError>)
        ensures
            Self::preserves_state(*old(self), *final (self)),
            final (self).terminal.buffer() == old(self).terminal.buffer(),
            final (self).terminal.spans() == old(self).terminal.spans(),
            final (self).terminal.cursor_shown() == old(self).terminal.cursor_shown(),
            old(self).prompt_current_position.row == old(self).prompt_end_position.row ==> r is Ok
                && final (self).terminal.cursor_ops() == old(self).terminal.cursor_ops(),
            old(self).prompt_current_position.row != old(self).prompt_end_position.row && r is Ok
                ==> ({
                let diff: u16 = if old(self).prompt_end_position.row >= old(
                    self,
                ).prompt_current_position.row {
                    (old(self).prompt_end_position.row - old(
                        self,
                    ).prompt_current_position.row) as u16
                } else {
                    0u16
                };
                final (self).terminal.cursor_ops() == old(self).terminal.cursor_ops().push(
                    CursorOp::Down(diff),
                ).push(CursorOp::Column(old(self).prompt_end_position.col))
            }),
    {
        if self.prompt_current_position.row != self.prompt_end_position.row {
            let diff = if self.prompt_end_position.row >= self.prompt_current_position.row {
                self.prompt_end_position.row - self.prompt_current_position.row
            } else {
                0
            };
            self.terminal.cursor_down(diff)?;
            self.terminal.cursor_move_to_column(self.prompt_end_position.col)?;
        }

        Ok(())
    }

    /// Applies the tracked cursor visibility to the physical cursor:
    /// on success the device cursor is shown exactly when `show_cursor`
    /// asks for it.
    pub fn update_cursor_status(&mut self) -> (r: Result<(), TermError>)
        ensures
            Self::preserves_state(*old(self), *final (self)),
            final (self).terminal.buffer() == old(self).terminal.buffer(),
            final (self).terminal.spans() == old(self).terminal.spans(),
            final (self).terminal.cursor_ops() == old(self).terminal.cursor_ops(),
            r is Ok ==> final (self).terminal.cursor_shown() == old(self).show_cursor,
            r is Err ==> final (self).terminal.cursor_shown() == old(
                self,
            ).terminal.cursor_shown(),
    {
        match self.show_cursor {
            true => self.terminal.cursor_show(),
            false => self.terminal.cursor_hide(),
        }
    }

    /// Marks the logical cursor as sitting `offset` characters past the
    /// text written so far this frame.
    pub fn mark_prompt_cursor_position(&mut self, offset: usize)
        ensures
            final (self).terminal == old(self).terminal,
            final (self).prompt_current_position == old(self).prompt_current_position,
            final (self).prompt_end_position == old(self).prompt_end_position,
            final (self).prompt_cursor_position == old(self).prompt_cursor_position,
            final (self).show_cursor == old(self).show_cursor,
            final (self).terminal_size == old(self).terminal_size,
            final (self).render_config == old(self).render_config,
            final (self).prompt_cursor_offset matches Some(p) && p as int == sat_add_usize(
                old(self).terminal.buffer().len() as int,
                offset as int,
            ),
    {
        let current = self.terminal.get_in_memory_content();
        let position = current.as_str().unicode_len();
        let position = if position <= usize::MAX - offset {
            position + offset
        } else {
            usize::MAX
        };

        self.prompt_cursor_offset = Some(position);
    }

    /// Erases the previous frame: moves to its end, clears exactly one
    /// terminal row per row it occupied, empties the frame text, and
    /// resets all position tracking to its zero state.
    pub fn reset_prompt(&mut self) -> (r: Result<(), TermError>)
        ensures
            final (self).terminal_size == old(self).terminal_size,
            final (self).render_config == old(self).render_config,
            final (self).terminal.spans() == old(self).terminal.spans(),
            old(self).terminal.lines_cleared() <= final (self).terminal.lines_cleared() <= old(
                self,
            ).terminal.lines_cleared() + old(self).prompt_end_position.row,
            final (self).prompt_end_position == old(self).prompt_end_position
                || final (self).prompt_end_position == (Position { row: 0, col: 0 }),
            r is Ok ==> {
                &&& final (self).terminal.buffer() == Seq::<char>::empty()
                &&& final (self).terminal.lines_cleared() == old(self).terminal.lines_cleared()
                    + old(self).prompt_end_position.row
                &&& final (self).prompt_current_position == (Position { row: 0, col: 0 })
                &&& final (self).prompt_end_position == (Position { row: 0, col: 0 })
                &&& final (self).prompt_cursor_offset is None
                &&& final (self).prompt_cursor_position is None
                &&& !final (self).show_cursor
                &&& !final (self).terminal.cursor_shown()
            },
            r is Err ==> ({
                &&& final (self).prompt_current_position == old(self).prompt_current_position
                &&& final (self).prompt_end_position == old(self).prompt_end_position
                &&& final (self).prompt_cursor_offset == old(self).prompt_cursor_offset
                &&& final (self).prompt_cursor_position == old(self).prompt_cursor_position
                &&& final (self).show_cursor == old(self).show_cursor
                &&& final (self).terminal.buffer() == old(self).terminal.buffer()
            }) || {
                &&& final (self).terminal.buffer() == Seq::<char>::empty()
                &&& final (self).terminal.lines_cleared() == old(self).terminal.lines_cleared()
                    + old(self).prompt_end_position.row
                &&& final (self).prompt_current_position == (Position { row: 0, col: 0 })
                &&& final (self).prompt_end_position == (Position { row: 0, col: 0 })
                &&& final (self).prompt_cursor_offset is None
                &&& final (self).prompt_cursor_position is None
                &&& !final (self).show_cursor
            },
    {
        self.move_cursor_to_end_position()?;

        let rows = self.prompt_end_position.row;
        let mut i: u16 = 0;
        while i < rows
            invariant
                i <= rows,
                rows == old(self).prompt_end_position.row,
                self.prompt_current_position == old(self).prompt_current_position,
                self.prompt_end_position == old(self).prompt_end_position,
                self.prompt_cursor_offset == old(self).prompt_cursor_offset,
                self.prompt_cursor_position == old(self).prompt_cursor_position,
                self.show_cursor == old(self).show_cursor,
                self.terminal_size == old(self).terminal_size,
                self.render_config == old(self).render_config,
                self.terminal.buffer() == old(self).terminal.buffer(),
                self.terminal.spans() == old(self).terminal.spans(),
                self.terminal.lines_cleared() == old(self).terminal.lines_cleared() + i,
            decreases rows - i,
        {
            self.terminal.cursor_up(1)?;
            self.terminal.clear_current_line()?;
            i = i + 1;
        }

        self.terminal.clear_in_memory_content();

        self.prompt_current_position = Position::default();
        self.prompt_end_position = Position::default();
        self.prompt_cursor_position = None;
        self.prompt_cursor_offset = None;

        self.show_cursor = false;
        self.terminal.cursor_hide()?;

        Ok(())
    }

    /// Writes the pending output to the terminal.
    pub fn flush(&mut self) -> (r: Result<(), TermError>)
        ensures
            Self::preserves_state(*old(self), *final (self)),
            final (self).terminal.buffer() == old(self).terminal.buffer(),
            final (self).terminal.spans() == old(self).terminal.spans(),
            final (self).terminal.cursor_ops() == old(self).terminal.cursor_ops(),
            final (self).terminal.cursor_shown() == old(self).terminal.cursor_shown(),
    {
        self.terminal.flush()?;

        Ok(())
    }

    /// Ends the current line.
    pub fn new_line(&mut self) -> (r: Result<(), TermError>)
        ensures
            Self::preserves_state(*old(self), *final (self)),
            r is Ok ==> final (self).terminal.buffer() == old(self).terminal.buffer()
                + newline_text(),
            r is Ok ==> final (self).terminal.spans() == old(self).terminal.spans().push(
                plain_span(newline_text()),
            ),
    {
        self.terminal.write("\r\n")?;
        proof {
            reveal_strlit("\r\n");
            assert("\r\n"@ =~= newline_text());
        }
        Ok(())
    }

    /// Draws the one-glyph prefix ahead of the row at
    /// `option_relative_index`.
    pub fn print_option_prefix(
        &mut self,
        option_relative_index: usize,
        page: &Page<ListOption>,
    ) -> (r: Result<(), TermError>)
        ensures
            Self::preserves_state(*old(self), *final (self)),
            r is Ok ==> final (self).terminal.buffer() == old(self).terminal.buffer()
                + spec_option_prefix(
                old(self).render_config,
                option_relative_index as int,
                *page,
            ).text,
            r is Ok ==> final (self).terminal.spans() == old(self).terminal.spans().push(
                spec_option_prefix(old(self).render_config, option_relative_index as int, *page),
            ),
    {
        let x = option_prefix_span(&self.render_config, option_relative_index, page);
        self.terminal.write_styled(&x)
    }

    /// Draws the display value of the row at `option_relative_index`.
    pub fn print_option_value(
        &mut self,
        option_relative_index: usize,
        option: &ListOption,
        page: &Page<ListOption>,
    ) -> (r: Result<(), TermError>)
        ensures
            Self::preserves_state(*old(self), *final (self)),
            r is Ok ==> final (self).terminal.buffer() == old(self).terminal.buffer()
                + spec_option_value(
                old(self).render_config,
                option_relative_index as int,
                *option,
                *page,
            ).text,
            r is Ok ==> final (self).terminal.spans() == old(self).terminal.spans().push(
                spec_option_value(
                    old(self).render_config,
                    option_relative_index as int,
                    *option,
                    *page,
                ),
            ),
    {
        let x = option_value_span(&self.render_config, option_relative_index, option, page);
        self.terminal.write_styled(&x)
    }

    /// Draws the numeric prefix for the option with absolute `index`
    /// out of `max_index` options, when the configured mode shows one.
    pub fn print_option_index_prefix(&mut self, index: usize, max_index: usize) -> (r: Option<
        Result<(), TermError>,
    >)
        ensures
            Self::preserves_state(*old(self), *final (self)),
            match index_prefix_text(
                old(self).render_config.option_index_prefix,
                sat_inc_usize(index as int),
                max_index as int,
            ) {
                Some(t) => r matches Some(res) && (res is Ok ==> final (self).terminal.buffer()
                    == old(self).terminal.buffer() + t && final (self).terminal.spans() == old(
                    self,
                ).terminal.spans().push(
                    (SpanSpec { text: t, style: old(self).render_config.option }),
                )),
                None => r is None && final (self).terminal.buffer() == old(self).terminal.buffer()
                    && final (self).terminal.spans() == old(self).terminal.spans(),
            },
    {
        let index1 = if index < usize::MAX {
            index + 1
        } else {
            index
        };
        let max1 = if max_index < usize::MAX {
            max_index + 1
        } else {
            max_index
        };
        let content: Option<String> = match self.render_config.option_index_prefix {
            IndexPrefix::Omitted => None,
            IndexPrefix::Simple => {
                let mut s = dec_string(index1);
                s.append(")");
                proof {
                    reveal_strlit(")");
                    assert(s@ =~= dec_digits(sat_inc_usize(index as int)).push(')'));
                }
                Some(s)
            },
            IndexPrefix::SpacePadded => {
                let width = int_log10(max1);
                let mut s = format_index(index1, width, false);
                s.append(")");
                proof {
                    reveal_strlit(")");
                    assert(s@ =~= padded_index(
                        sat_inc_usize(index as int),
                        spec_int_log10(sat_inc_usize(max_index as int)),
                        false,
                    ).push(')'));
                }
                Some(s)
            },
            IndexPrefix::ZeroPadded => {
                let width = int_log10(max1);
                let mut s = format_index(index1, width, true);
                s.append(")");
                proof {
                    reveal_strlit(")");
                    assert(s@ =~= padded_index(
                        sat_inc_usize(index as int),
                        spec_int_log10(sat_inc_usize(max_index as int)),
                        true,
                    ).push(')'));
                }
                Some(s)
            },
        };

        match content {
            Some(prefix) => {
                let token = Styled::new(prefix.as_str()).with_style_sheet(
                    self.render_config.option,
                );
                Some(self.terminal.write_styled(&token))
            },
            None => None,
        }
    }

    /// Draws the parenthesized default value of a prompt.
    pub fn print_default_value(&mut self, value: &str) -> (r: Result<(), TermError>)
        ensures
            Self::preserves_state(*old(self), *final (self)),
            r is Ok ==> final (self).terminal.buffer() == old(self).terminal.buffer()
                + spec_default_value_text(value@),
            r is Ok ==> final (self).terminal.spans() == old(self).terminal.spans().push(
                (SpanSpec {
                    text: spec_default_value_text(value@),
                    style: old(self).render_config.default_value,
                }),
            ),
    {
        let mut content = String::from_str("(");
        content.append(value);
        content.append(")");
        proof {
            reveal_strlit("(");
            reveal_strlit(")");
            assert(content@ =~= spec_default_value_text(value@));
        }
        let token = Styled::new(content.as_str()).with_style_sheet(
            self.render_config.default_value,
        );
        self.terminal.write_styled(&token)
    }

    /// Draws a prompt line under the given prefix span.
    pub fn print_prompt_with_prefix(&mut self, prefix: &Styled, prompt: &str) -> (r: Result<
        (),
        TermError,
    >)
        ensures
            Self::preserves_state(*old(self), *final (self)),
            r is Ok ==> final (self).terminal.buffer() == old(self).terminal.buffer()
                + spec_prompt_text(prefix@, prompt@),
            r is Ok ==> final (self).terminal.spans() == old(self).terminal.spans()
                + spec_prompt_spans(old(self).render_config, prefix@, prompt@),
    {
        self.terminal.write_styled(prefix)?;
        self.terminal.write(" ")?;
        let token = Styled::new(prompt).with_style_sheet(self.render_config.prompt);
        self.terminal.write_styled(&token)?;
        proof {
            reveal_strlit(" ");
            assert(self.terminal.buffer() =~= old(self).terminal.buffer() + spec_prompt_text(
                prefix@,
                prompt@,
            ));
            assert(self.terminal.spans() =~~= old(self).terminal.spans() + spec_prompt_spans(
                old(self).render_config,
                prefix@,
                prompt@,
            ));
        }
        Ok(())
    }

    /// Draws a prompt line under the configured prompt prefix.
    pub fn print_prompt(&mut self, prompt: &str) -> (r: Result<(), TermError>)
        ensures
            Self::preserves_state(*old(self), *final (self)),
            r is Ok ==> final (self).terminal.buffer() == old(self).terminal.buffer()
                + spec_prompt_text(old(self).render_config.prompt_prefix@, prompt@),
            r is Ok ==> final (self).terminal.spans() == old(self).terminal.spans()
                + spec_prompt_spans(
                old(self).render_config,
                old(self).render_config.prompt_prefix@,
                prompt@,
            ),
    {
        let prefix = self.render_config.prompt_prefix.snapshot();
        self.print_prompt_with_prefix(&prefix, prompt)
    }

    /// Draws the live input line, marks the logical cursor at the
    /// input's pre-cursor character count, and requests a visible
    /// cursor for the end of the frame.
    pub fn print_input(&mut self, input: &Input) -> (r: Result<(), TermError>)
        ensures
            final (self).prompt_current_position == old(self).prompt_current_position,
            final (self).prompt_end_position == old(self).prompt_end_position,
            final (self).prompt_cursor_position == old(self).prompt_cursor_position,
            final (self).terminal_size == old(self).terminal_size,
            final (self).render_config == old(self).render_config,
            final (self).terminal.lines_cleared() == old(self).terminal.lines_cleared(),
            r is Ok ==> {
                &&& final (self).terminal.buffer() == old(self).terminal.buffer()
                    + spec_input_text(*input)
                &&& final (self).terminal.spans() == old(self).terminal.spans()
                    + spec_input_spans(old(self).render_config, *input)
                &&& final (self).show_cursor
                &&& final (self).prompt_cursor_offset matches Some(p) && p as int
                    == sat_add_usize(
                    old(self).terminal.buffer().len() as int + 1,
                    input.spec_cursor(),
                )
            },
    {
        self.terminal.write(" ")?;

        let cursor_offset = input.cursor();
        self.mark_prompt_cursor_position(cursor_offset);
        self.show_cursor = true;

        if input.is_empty() {
            match input.placeholder() {
                None => {},
                Some(p) => {
                    if !p.is_empty() {
                        let token = Styled::new(p).with_style_sheet(
                            self.render_config.placeholder,
                        );
                        self.terminal.write_styled(&token)?;
                    }
                },
            }
        } else {
            let token = Styled::new(input.content()).with_style_sheet(
                self.render_config.text_input,
            );
            self.terminal.write_styled(&token)?;
        }

        // if the cursor is at the end of the input, one extra space
        // keeps the physical cursor off the next line's first cell
        if input.cursor() == input.length() {
            self.terminal.write(" ")?;
        }

        proof {
            reveal_strlit(" ");
            assert(self.terminal.buffer() =~= old(self).terminal.buffer() + spec_input_text(
                *input,
            ));
            assert(self.terminal.spans() =~~= old(self).terminal.spans() + spec_input_spans(
                old(self).render_config,
                *input,
            ));
        }
        Ok(())
    }

    /// Draws a full prompt line with its optional default value and the
    /// live input.
    pub fn print_prompt_with_input(
        &mut self,
        prompt: &str,
        default: Option<&str>,
        input: &Input,
    ) -> (r: Result<(), TermError>)
        ensures
            final (self).prompt_current_position == old(self).prompt_current_position,
            final (self).prompt_end_position == old(self).prompt_end_position,
            final (self).prompt_cursor_position == old(self).prompt_cursor_position,
            final (self).terminal_size == old(self).terminal_size,
            final (self).render_config == old(self).render_config,
            final (self).terminal.lines_cleared() == old(self).terminal.lines_cleared(),
            r is Ok ==> ({
                let cfg = old(self).render_config;
                let d = match default {
                    Some(dd) => Some(dd@),
                    None => None::<Seq<char>>,
                };
                let pre_len = old(self).terminal.buffer().len() + spec_prompt_text(
                    cfg.prompt_prefix@,
                    prompt@,
                ).len() + (match d {
                    Some(dd) => 1 + spec_default_value_text(dd).len(),
                    None => 0,
                }) + 1;
                &&& final (self).terminal.buffer() == old(self).terminal.buffer()
                    + spec_prompt_with_input_text(cfg, prompt@, d, *input)
                &&& final (self).terminal.spans() == old(self).terminal.spans()
                    + spec_prompt_with_input_spans(cfg, prompt@, d, *input)
                &&& final (self).show_cursor
                &&& final (self).prompt_cursor_offset matches Some(p) && p as int
                    == sat_add_usize(pre_len as int, input.spec_cursor())
            }),
    {
        self.print_prompt(prompt)?;

        if let Some(default) = default {
            self.terminal.write(" ")?;
            self.print_default_value(default)?;
        }

        self.print_input(input)?;

        self.new_line()?;

        proof {
            reveal_strlit(" ");
            assert(self.terminal.buffer() =~= old(self).terminal.buffer()
                + spec_prompt_with_input_text(
                old(self).render_config,
                prompt@,
                match default {
                    Some(dd) => Some(dd@),
                    None => None::<Seq<char>>,
                },
                *input,
            ));
            assert(self.terminal.spans() =~~= old(self).terminal.spans()
                + spec_prompt_with_input_spans(
                old(self).render_config,
                prompt@,
                match default {
                    Some(dd) => Some(dd@),
                    None => None::<Seq<char>>,
                },
                *input,
            ));
        }
        Ok(())
    }

    /// Opens a frame: hides the cursor, flushes pending output, then
    /// erases the previous frame and resets all position tracking.
    pub fn frame_setup(&mut self) -> (r: Result<(), TermError>)
        ensures
            final (self).terminal_size == old(self).terminal_size,
            final (self).render_config == old(self).render_config,
            final (self).terminal.spans() == old(self).terminal.spans(),
            old(self).terminal.lines_cleared() <= final (self).terminal.lines_cleared() <= old(
                self,
            ).terminal.lines_cleared() + old(self).prompt_end_position.row,
            final (self).prompt_end_position == old(self).prompt_end_position
                || final (self).prompt_end_position == (Position { row: 0, col: 0 }),
            r is Ok ==> {
                &&& final (self).terminal.buffer() == Seq::<char>::empty()
                &&& final (self).terminal.lines_cleared() == old(self).terminal.lines_cleared()
                    + old(self).prompt_end_position.row
                &&& final (self).prompt_current_position == (Position { row: 0, col: 0 })
                &&& final (self).prompt_end_position == (Position { row: 0, col: 0 })
                &&& final (self).prompt_cursor_offset is None
                &&& final (self).prompt_cursor_position is None
                &&& !final (self).show_cursor
                &&& !final (self).terminal.cursor_shown()
            },
    {
        self.terminal.cursor_hide()?;
        self.terminal.flush()?;

        self.reset_prompt()
    }

    /// Closes a frame: recomputes the end position against the full
    /// frame text, relocates the physical cursor to the resolved input
    /// cursor when one was marked and found, applies cursor visibility,
    /// and flushes.
    pub fn frame_finish(&mut self) -> (r: Result<(), TermError>)
        ensures
            final (self).terminal_size == old(self).terminal_size,
            final (self).render_config == old(self).render_config,
            final (self).prompt_cursor_offset == old(self).prompt_cursor_offset,
            final (self).show_cursor == old(self).show_cursor,
            final (self).terminal.buffer() == old(self).terminal.buffer(),
            final (self).terminal.lines_cleared() == old(self).terminal.lines_cleared(),
            final (self).prompt_end_position.row as int == walk(
                old(self).terminal.buffer(),
                old(self).terminal_size.width as int,
            ).0,
            final (self).prompt_end_position.col as int == walk(
                old(self).terminal.buffer(),
                old(self).terminal_size.width as int,
            ).1,
            match old(self).prompt_cursor_offset {
                Some(off) => match resolved_cursor(
                    old(self).terminal.buffer(),
                    old(self).terminal_size.width as int,
                    off as int,
                ) {
                    Some(rc) => final (self).prompt_cursor_position matches Some(p) && p.row as int
                        == rc.0 && p.col as int == rc.1,
                    None => final (self).prompt_cursor_position == old(
                        self,
                    ).prompt_cursor_position,
                },
                None => final (self).prompt_cursor_position == old(self).prompt_cursor_position,
            },
            r is Ok ==> match final (self).prompt_cursor_position {
                Some(p) => final (self).prompt_current_position == p,
                None => final (self).prompt_current_position == final (self).prompt_end_position,
            },
            final (self).terminal.spans() == old(self).terminal.spans(),
            r is Ok ==> final (self).terminal.cursor_shown() == old(self).show_cursor,
            r is Ok ==> ({
                let endp = walk(old(self).terminal.buffer(), old(self).terminal_size.width as int);
                match final (self).prompt_cursor_position {
                    Some(p) => ({
                        let diff: u16 = if endp.0 >= p.row {
                            (endp.0 - p.row) as u16
                        } else {
                            0u16
                        };
                        final (self).terminal.cursor_ops() == old(self).terminal.cursor_ops().push(
                            CursorOp::Up(diff),
                        ).push(CursorOp::Column(p.col))
                    }),
                    None => final (self).terminal.cursor_ops() == old(self).terminal.cursor_ops(),
                }
            }),
    {
        self.update_position_info();

        if let Some(prompt_cursor_position) = self.prompt_cursor_position {
            let row_diff = if self.prompt_current_position.row >= prompt_cursor_position.row {
                self.prompt_current_position.row - prompt_cursor_position.row
            } else {
                0
            };

            self.terminal.cursor_up(row_diff)?;
            self.terminal.cursor_move_to_column(prompt_cursor_position.col)?;

            self.prompt_current_position = prompt_cursor_position;
        }

        self.update_cursor_status()?;

        self.flush()
    }

    /// Blocks until the driver decodes the next key event.
    pub fn read_key(&mut self) -> (r: Result<Key, TermError>)
        ensures
            Self::preserves_state(*old(self), *final (self)),
            final (self).terminal.buffer() == old(self).terminal.buffer(),
            final (self).terminal.spans() == old(self).terminal.spans(),
            final (self).terminal.cursor_ops() == old(self).terminal.cursor_ops(),
            final (self).terminal.cursor_shown() == old(self).terminal.cursor_shown(),
    {
        self.terminal.read_key()
    }

    /// Draws the prompt followed by the canceled indicator.
    pub fn render_canceled_prompt(&mut self, prompt: &str) -> (r: Result<(), TermError>)
        ensures
            Self::preserves_state(*old(self), *final (self)),
            r is Ok ==> final (self).terminal.buffer() == old(self).terminal.buffer()
                + spec_prompt_text(old(self).render_config.prompt_prefix@, prompt@) + seq![' ']
                + old(self).render_config.canceled_prompt_indicator@.text + newline_text(),
            r is Ok ==> final (self).terminal.spans() == old(self).terminal.spans()
                + spec_prompt_spans(
                old(self).render_config,
                old(self).render_config.prompt_prefix@,
                prompt@,
            ) + seq![
                plain_span(seq![' ']),
                old(self).render_config.canceled_prompt_indicator@,
                plain_span(newline_text()),
            ],
    {
        self.print_prompt(prompt)?;

        self.terminal.write(" ")?;

        let token = self.render_config.canceled_prompt_indicator.snapshot();
        self.terminal.write_styled(&token)?;

        self.new_line()?;

        proof {
            reveal_strlit(" ");
            assert(self.terminal.buffer() =~= old(self).terminal.buffer() + spec_prompt_text(
                old(self).render_config.prompt_prefix@,
                prompt@,
            ) + seq![' '] + old(self).render_config.canceled_prompt_indicator@.text
                + newline_text());
            assert(self.terminal.spans() =~~= old(self).terminal.spans() + spec_prompt_spans(
                old(self).render_config,
                old(self).render_config.prompt_prefix@,
                prompt@,
            ) + seq![
                plain_span(seq![' ']),
                old(self).render_config.canceled_prompt_indicator@,
                plain_span(newline_text()),
            ]);
        }
        Ok(())
    }

    /// Draws the prompt under the answered prefix, followed by the
    /// answer text.
    pub fn render_prompt_with_answer(&mut self, prompt: &str, answer: &str) -> (r: Result<
        (),
        TermError,
    >)
        ensures
            Self::preserves_state(*old(self), *final (self)),
            r is Ok ==> final (self).terminal.buffer() == old(self).terminal.buffer()
                + spec_prompt_text(old(self).render_config.answered_prompt_prefix@, prompt@)
                + seq![' '] + answer@ + newline_text(),
            r is Ok ==> final (self).terminal.spans() == old(self).terminal.spans()
                + spec_prompt_spans(
                old(self).render_config,
                old(self).render_config.answered_prompt_prefix@,
                prompt@,
            ) + seq![
                plain_span(seq![' ']),
                (SpanSpec { text: answer@, style: old(self).render_config.answer }),
                plain_span(newline_text()),
            ],
    {
        let prefix = self.render_config.answered_prompt_prefix.snapshot();
        self.print_prompt_with_prefix(&prefix, prompt)?;

        self.terminal.write(" ")?;

        let token = Styled::new(answer).with_style_sheet(self.render_config.answer);
        self.terminal.write_styled(&token)?;

        self.new_line()?;

        proof {
            reveal_strlit(" ");
            assert(self.terminal.buffer() =~= old(self).terminal.buffer() + spec_prompt_text(
                old(self).render_config.answered_prompt_prefix@,
                prompt@,
            ) + seq![' '] + answer@ + newline_text());
            assert(self.terminal.spans() =~~= old(self).terminal.spans() + spec_prompt_spans(
                old(self).render_config,
                old(self).render_config.answered_prompt_prefix@,
                prompt@,
            ) + seq![
                plain_span(seq![' ']),
                (SpanSpec { text: answer@, style: old(self).render_config.answer }),
                plain_span(newline_text()),
            ]);
        }
        Ok(())
    }

    /// Draws a validation error: the error prefix, a styled separator
    /// space, the default or custom message.
    pub fn render_error_message(&mut self, error: &ErrorMessage) -> (r: Result<(), TermError>)
        ensures
            Self::preserves_state(*old(self), *final (self)),
            r is Ok ==> final (self).terminal.buffer() == old(self).terminal.buffer()
                + spec_error_text(old(self).render_config, *error),
            r is Ok ==> final (self).terminal.spans() == old(self).terminal.spans()
                + spec_error_spans(old(self).render_config, *error),
    {
        let prefix = self.render_config.error_message.prefix.snapshot();
        self.terminal.write_styled(&prefix)?;

        let separator = Styled::new(" ").with_style_sheet(self.render_config.error_message.separator);
        self.terminal.write_styled(&separator)?;

        let message = match error {
            ErrorMessage::Standard => Styled::new(
                self.render_config.error_message.default_message.as_str(),
            ).with_style_sheet(self.render_config.error_message.message),
            ErrorMessage::Custom(msg) => Styled::new(msg.as_str()).with_style_sheet(
                self.render_config.error_message.message,
            ),
        };
        self.terminal.write_styled(&message)?;

        self.new_line()?;

        proof {
            reveal_strlit(" ");
            assert(self.terminal.buffer() =~= old(self).terminal.buffer() + spec_error_text(
                old(self).render_config,
                *error,
            ));
            assert(self.terminal.spans() =~~= old(self).terminal.spans() + spec_error_spans(
                old(self).render_config,
                *error,
            ));
        }
        Ok(())
    }

    /// Draws a help line, preceded by a blank line.
    pub fn render_help_message(&mut self, help: &str) -> (r: Result<(), TermError>)
        ensures
            Self::preserves_state(*old(self), *final (self)),
            r is Ok ==> final (self).terminal.buffer() == old(self).terminal.buffer()
                + newline_text() + help@ + newline_text(),
            r is Ok ==> final (self).terminal.spans() == old(self).terminal.spans() + seq![
                plain_span(newline_text()),
                (SpanSpec { text: help@, style: old(self).render_config.help_message }),
                plain_span(newline_text()),
            ],
    {
        self.new_line()?;

        let token = Styled::new(help).with_style_sheet(self.render_config.help_message);
        self.terminal.write_styled(&token)?;

        self.new_line()?;

        proof {
            assert(self.terminal.buffer() =~= old(self).terminal.buffer() + newline_text()
                + help@ + newline_text());
            assert(self.terminal.spans() =~~= old(self).terminal.spans() + seq![
                plain_span(newline_text()),
                (SpanSpec { text: help@, style: old(self).render_config.help_message }),
                plain_span(newline_text()),
            ]);
        }
        Ok(())
    }

    /// Draws the prompt line with the live input of a multi-select
    /// prompt.
    pub fn render_multiselect_prompt(&mut self, prompt: &str, cur_input: &Input) -> (r: Result<
        (),
        TermError,
    >)
        ensures
            final (self).prompt_current_position == old(self).prompt_current_position,
            final (self).prompt_end_position == old(self).prompt_end_position,
            final (self).prompt_cursor_position == old(self).prompt_cursor_position,
            final (self).terminal_size == old(self).terminal_size,
            final (self).render_config == old(self).render_config,
            final (self).terminal.lines_cleared() == old(self).terminal.lines_cleared(),
            r is Ok ==> {
                &&& final (self).terminal.buffer() == old(self).terminal.buffer()
                    + spec_prompt_with_input_text(
                    old(self).render_config,
                    prompt@,
                    None::<Seq<char>>,
                    *cur_input,
                )
                &&& final (self).terminal.spans() == old(self).terminal.spans()
                    + spec_prompt_with_input_spans(
                    old(self).render_config,
                    prompt@,
                    None::<Seq<char>>,
                    *cur_input,
                )
                &&& final (self).show_cursor
                &&& final (self).prompt_cursor_offset is Some
            },
    {
        self.print_prompt_with_input(prompt, None, cur_input)
    }

    /// Draws every row of the page in order: prefix, optional numeric
    /// index, checkbox chosen by membership of the row's absolute index
    /// in `checked`, and the display value.
    #[verifier::rlimit(100)]
    pub fn render_options(&mut self, page: Page<ListOption>, checked: &BTreeSet<usize>) -> (r:
        Result<(), TermError>)
        ensures
            Self::preserves_state(*old(self), *final (self)),
            r is Ok ==> final (self).terminal.buffer() == old(self).terminal.buffer()
                + spec_options_block(
                old(self).render_config,
                page,
                checked@,
                page.content@.len() as int,
            ),
            r is Ok ==> final (self).terminal.spans() == old(self).terminal.spans()
                + spec_options_block_spans(
                old(self).render_config,
                page,
                checked@,
                page.content@.len() as int,
            ),
            page.content@.len() == 0 ==> r is Ok,
    {
        let n = page.content.len();
        let mut idx: usize = 0;
        while idx < n
            invariant
                idx <= n,
                n == page.content@.len(),
                Self::preserves_state(*old(self), *self),
                self.terminal.buffer() == old(self).terminal.buffer() + spec_options_block(
                    old(self).render_config,
                    page,
                    checked@,
                    idx as int,
                ),
                self.terminal.spans() == old(self).terminal.spans() + spec_options_block_spans(
                    old(self).render_config,
                    page,
                    checked@,
                    idx as int,
                ),
            decreases n - idx,
        {
            self.print_option_row(idx, &page, checked)?;

            proof {
                assert(self.terminal.buffer() =~= old(self).terminal.buffer()
                    + spec_options_block(old(self).render_config, page, checked@, idx + 1));
                assert(self.terminal.spans() =~~= old(self).terminal.spans()
                    + spec_options_block_spans(old(self).render_config, page, checked@, idx + 1));
            }
            idx = idx + 1;
        }

        Ok(())
    }

    /// Draws one full option row: prefix, space, optional numeric index
    /// with its trailing space, checkbox, space, value, line break.
    #[verifier::rlimit(100)]
    fn print_option_row(&mut self, idx: usize, page: &Page<ListOption>, checked: &BTreeSet<
        usize,
    >) -> (r: Result<(), TermError>)
        requires
            idx < page.content@.len(),
        ensures
            Self::preserves_state(*old(self), *final (self)),
            r is Ok ==> final (self).terminal.buffer() == old(self).terminal.buffer()
                + spec_option_row(old(self).render_config, *page, checked@, idx as int),
            r is Ok ==> final (self).terminal.spans() == old(self).terminal.spans()
                + spec_option_row_spans(old(self).render_config, *page, checked@, idx as int),
    {
        self.print_option_prefix(idx, page)?;

        self.terminal.write(" ")?;

        let opt_index = page.content[idx].index;
        if let Some(res) = self.print_option_index_prefix(opt_index, page.total) {
            res?;
            self.terminal.write(" ")?;
        }

        let is_checked = checked.contains(&opt_index);
        let cursor_row = match page.cursor {
            Some(c) => c == idx,
            None => false,
        };
        let checkbox = checkbox_span(&self.render_config, is_checked, cursor_row);
        self.terminal.write_styled(&checkbox)?;

        self.terminal.write(" ")?;

        self.print_option_value(idx, &page.content[idx], page)?;

        self.new_line()?;

        proof {
            reveal_strlit(" ");
            assert(is_checked == checked@.contains(opt_index));
            assert(self.terminal.buffer() =~= old(self).terminal.buffer() + spec_option_row(
                old(self).render_config,
                *page,
                checked@,
                idx as int,
            ));
            assert(self.terminal.spans() =~~= old(self).terminal.spans() + spec_option_row_spans(
                old(self).render_config,
                *page,
                checked@,
                idx as int,
            ));
        }
        Ok(())
    }

    /// Cleanup on teardown: moves back to the end of the rendered block
    /// and re-shows the cursor; the show is attempted even when the
    /// motion fails. Hosts call this on every exit path and discard the
    /// result, since cleanup commonly runs during unwinding and must
    /// never itself fail loudly.
    pub fn restore_cursor(&mut self) -> (r: Result<(), TermError>)
        ensures
            Self::preserves_state(*old(self), *final (self)),
            final (self).terminal.buffer() == old(self).terminal.buffer(),
            final (self).terminal.spans() == old(self).terminal.spans(),
            r is Ok ==> final (self).terminal.cursor_shown(),
            r is Ok && old(self).prompt_current_position.row == old(self).prompt_end_position.row
                ==> final (self).terminal.cursor_ops() == old(self).terminal.cursor_ops(),
            r is Ok && old(self).prompt_current_position.row != old(self).prompt_end_position.row
                ==> ({
                let diff: u16 = if old(self).prompt_end_position.row >= old(
                    self,
                ).prompt_current_position.row {
                    (old(self).prompt_end_position.row - old(
                        self,
                    ).prompt_current_position.row) as u16
                } else {
                    0u16
                };
                final (self).terminal.cursor_ops() == old(self).terminal.cursor_ops().push(
                    CursorOp::Down(diff),
                ).push(CursorOp::Column(old(self).prompt_end_position.col))
            }),
    {
        let moved = self.move_cursor_to_end_position();
        let shown = self.terminal.cursor_show();
        match (moved, shown) {
            (Ok(_), Ok(_)) => Ok(()),
            (Err(e), _) => Err(e),
            (_, Err(e)) => Err(e),
        }
    }
}

/// The one-glyph prefix span for the row at `idx`, chosen as
/// `spec_option_prefix` says.
pub fn option_prefix_span(cfg: &RenderConfig, idx: usize, page: &Page<ListOption>) -> (r: Styled)
    ensures
        r@ == spec_option_prefix(*cfg, idx as int, *page),
{
    let cursor_row = match page.cursor {
        Some(c) => c == idx,
        None => false,
    };
    if cursor_row {
        cfg.highlighted_option_prefix.snapshot()
    } else if idx == 0 && !page.first {
        cfg.scroll_up_prefix.snapshot()
    } else if idx < page.content.len() && idx + 1 == page.content.len() && !page.last {
        cfg.scroll_down_prefix.snapshot()
    } else {
        let r = Styled::new(" ");
        proof {
            reveal_strlit(" ");
            assert(r@.text =~= seq![' ']);
        }
        r
    }
}

/// The checkbox span for a row, chosen as `spec_checkbox` says.
pub fn checkbox_span(cfg: &RenderConfig, checked: bool, cursor_row: bool) -> (r: Styled)
    ensures
        r@ == spec_checkbox(*cfg, checked, cursor_row),
{
    let mut checkbox = if checked {
        cfg.selected_checkbox.snapshot()
    } else {
        cfg.unselected_checkbox.snapshot()
    };

    if cursor_row {
        if let Some(stylesheet) = cfg.selected_option {
            checkbox.style = stylesheet;
        }
    }

    checkbox
}

/// The display-value span for a row, chosen as `spec_option_value`
/// says.
pub fn option_value_span(
    cfg: &RenderConfig,
    idx: usize,
    option: &ListOption,
    page: &Page<ListOption>,
) -> (r: Styled)
    ensures
        r@ == spec_option_value(*cfg, idx as int, *option, *page),
{
    let cursor_row = match page.cursor {
        Some(c) => c == idx,
        None => false,
    };
    let stylesheet = match cfg.selected_option {
        Some(s) => if cursor_row {
            s
        } else {
            cfg.option
        },
        None => cfg.option,
    };
    Styled::new(option.value.as_str()).with_style_sheet(stylesheet)
}

/// What every prompt flavor needs from a renderer: the frame lifecycle,
/// key reads, and the terminal prompt states.
pub trait CommonBackend {
    fn read_key(&mut self) -> Result<Key, TermError>;

    fn frame_setup(&mut self) -> Result<(), TermError>;

    fn frame_finish(&mut self) -> Result<(), TermError>;

    fn render_canceled_prompt(&mut self, prompt: &str) -> Result<(), TermError>;

    fn render_prompt_with_answer(&mut self, prompt: &str, answer: &str) -> Result<(), TermError>;

    fn render_error_message(&mut self, error: &ErrorMessage) -> Result<(), TermError>;

    fn render_help_message(&mut self, help: &str) -> Result<(), TermError>;
}

/// What a multi-select prompt needs beyond `CommonBackend`.
pub trait MultiSelectBackend: CommonBackend {
    fn render_multiselect_prompt(&mut self, prompt: &str, cur_input: &Input) -> Result<
        (),
        TermError,
    >;

    fn render_options(&mut self, page: Page<ListOption>, checked: &BTreeSet<usize>) -> Result<
        (),
        TermError,
    >;
}

impl<T: Terminal> CommonBackend for Backend<T> {
    fn read_key(&mut self) -> Result<Key, TermError> {
        self.read_key()
    }

    fn frame_setup(&mut self) -> Result<(), TermError> {
        self.frame_setup()
    }

    fn frame_finish(&mut self) -> Result<(), TermError> {
        self.frame_finish()
    }

    fn render_canceled_prompt(&mut self, prompt: &str) -> Result<(), TermError> {
        self.render_canceled_prompt(prompt)
    }

    fn render_prompt_with_answer(&mut self, prompt: &str, answer: &str) -> Result<(), TermError> {
        self.render_prompt_with_answer(prompt, answer)
    }

    fn render_error_message(&mut self, error: &ErrorMessage) -> Result<(), TermError> {
        self.render_error_message(error)
    }

    fn render_help_message(&mut self, help: &str) -> Result<(), TermError> {
        self.render_help_message(help)
    }
}

impl<T: Terminal> MultiSelectBackend for Backend<T> {
    fn render_multiselect_prompt(&mut self, prompt: &str, cur_input: &Input) -> Result<
        (),
        TermError,
    > {
        self.render_multiselect_prompt(prompt, cur_input)
    }

    fn render_options(&mut self, page: Page<ListOption>, checked: &BTreeSet<usize>) -> Result<
        (),
        TermError,
    > {
        self.render_options(page, checked)
    }
}

} // verus!
