//! The immutable bundle of style and prefix choices the renderer reads.

use vstd::prelude::*;

use crate::style::Color;
use crate::style::IndexPrefix;
use crate::style::SpanSpec;
use crate::style::StyleSheet;
use crate::style::Styled;
use crate::style::empty_style;
use crate::style::fg_style;

verus! {

/// How validation errors are rendered: a prefix span, a style for the
/// separating space, a style for the message, and the message text used
/// when the caller supplies none.
#[derive(Clone, Debug, PartialEq, Eq)]
pub struct ErrorMessageConfig {
    pub prefix: Styled,
    pub separator: StyleSheet,
    pub message: StyleSheet,
    pub default_message: String,
}

impl ErrorMessageConfig {
    /// An identical copy of this bundle.
    pub fn snapshot(&self) -> (r: Self)
        ensures
            r == *self,
    {
        ErrorMessageConfig {
            prefix: self.prefix.snapshot(),
            separator: self.separator,
            message: self.message,
            default_message: self.default_message.clone(),
        }
    }
}

/// Style descriptors and literal prefix/indicator spans, read-only for
/// the lifetime of a render session.
#[derive(Clone, Debug, PartialEq, Eq)]
pub struct RenderConfig {
    pub prompt_prefix: Styled,
    pub answered_prompt_prefix: Styled,
    pub prompt: StyleSheet,
    pub default_value: StyleSheet,
    pub placeholder: StyleSheet,
    pub text_input: StyleSheet,
    pub answer: StyleSheet,
    pub canceled_prompt_indicator: Styled,
    pub help_message: StyleSheet,
    pub error_message: ErrorMessageConfig,
    pub option: StyleSheet,
    pub selected_option: Option<StyleSheet>,
    pub highlighted_option_prefix: Styled,
    pub scroll_up_prefix: Styled,
    pub scroll_down_prefix: Styled,
    pub selected_checkbox: Styled,
    pub unselected_checkbox: Styled,
    pub option_index_prefix: IndexPrefix,
}

impl RenderConfig {
    /// An identical copy of this bundle.
    pub fn snapshot(&self) -> (r: Self)
        ensures
            r == *self,
    {
        RenderConfig {
            prompt_prefix: self.prompt_prefix.snapshot(),
            answered_prompt_prefix: self.answered_prompt_prefix.snapshot(),
            prompt: self.prompt,
            default_value: self.default_value,
            placeholder: self.placeholder,
            text_input: self.text_input,
            answer: self.answer,
            canceled_prompt_indicator: self.canceled_prompt_indicator.snapshot(),
            help_message: self.help_message,
            error_message: self.error_message.snapshot(),
            option: self.option,
            selected_option: self.selected_option,
            highlighted_option_prefix: self.highlighted_option_prefix.snapshot(),
            scroll_up_prefix: self.scroll_up_prefix.snapshot(),
            scroll_down_prefix: self.scroll_down_prefix.snapshot(),
            selected_checkbox: self.selected_checkbox.snapshot(),
            unselected_checkbox: self.unselected_checkbox.snapshot(),
            option_index_prefix: self.option_index_prefix,
        }
    }
}

/// The stock appearance, field by field: a green `?` prompt prefix that
/// turns into a green `>` once answered, dark-cyan answers and help, a
/// red error line, a cyan highlight with a `>` marker, plain `^`/`v`
/// scroll indicators, `[x]`/`[ ]` checkboxes (the first green), and no
/// numeric index prefix.
pub open spec fn is_stock_config(cfg: RenderConfig) -> bool {
    &&& cfg.prompt_prefix@ == (SpanSpec { text: "?"@, style: fg_style(Color::Green) })
    &&& cfg.answered_prompt_prefix@ == (SpanSpec { text: ">"@, style: fg_style(Color::Green) })
    &&& cfg.prompt == empty_style()
    &&& cfg.default_value == empty_style()
    &&& cfg.placeholder == fg_style(Color::DarkGrey)
    &&& cfg.text_input == empty_style()
    &&& cfg.answer == fg_style(Color::DarkCyan)
    &&& cfg.canceled_prompt_indicator@ == (SpanSpec {
        text: "<canceled>"@,
        style: fg_style(Color::DarkRed),
    })
    &&& cfg.help_message == fg_style(Color::DarkCyan)
    &&& cfg.error_message.prefix@ == (SpanSpec { text: "#"@, style: fg_style(Color::Red) })
    &&& cfg.error_message.separator == empty_style()
    &&& cfg.error_message.message == fg_style(Color::Red)
    &&& cfg.error_message.default_message@ == "Invalid input."@
    &&& cfg.option == empty_style()
    &&& cfg.selected_option == Some(fg_style(Color::Cyan))
    &&& cfg.highlighted_option_prefix@ == (SpanSpec { text: ">"@, style: fg_style(Color::Cyan) })
    &&& cfg.scroll_up_prefix@ == (SpanSpec { text: "^"@, style: empty_style() })
    &&& cfg.scroll_down_prefix@ == (SpanSpec { text: "v"@, style: empty_style() })
    &&& cfg.option_index_prefix == IndexPrefix::Omitted
}

impl Default for RenderConfig {
    /// The stock appearance, exactly as `is_stock_config` spells it
    /// out.
    fn default() -> (r: Self)
        ensures
            is_stock_config(r),
    {
        RenderConfig {
            prompt_prefix: Styled::new("?").with_style_sheet(StyleSheet::with_fg(Color::Green)),
            answered_prompt_prefix: Styled::new(">").with_style_sheet(
                StyleSheet::with_fg(Color::Green),
            ),
            prompt: StyleSheet::empty(),
            default_value: StyleSheet::empty(),
            placeholder: StyleSheet::with_fg(Color::DarkGrey),
            text_input: StyleSheet::empty(),
            answer: StyleSheet::with_fg(Color::DarkCyan),
            canceled_prompt_indicator: Styled::new("<canceled>").with_style_sheet(
                StyleSheet::with_fg(Color::DarkRed),
            ),
            help_message: StyleSheet::with_fg(Color::DarkCyan),
            error_message: ErrorMessageConfig {
                prefix: Styled::new("#").with_style_sheet(StyleSheet::with_fg(Color::Red)),
                separator: StyleSheet::empty(),
                message: StyleSheet::with_fg(Color::Red),
                default_message: String::from_str("Invalid input."),
            },
            option: StyleSheet::empty(),
            selected_option: Some(StyleSheet::with_fg(Color::Cyan)),
            highlighted_option_prefix: Styled::new(">").with_style_sheet(
                StyleSheet::with_fg(Color::Cyan),
            ),
            scroll_up_prefix: Styled::new("^"),
            scroll_down_prefix: Styled::new("v"),
            selected_checkbox: Styled::new("[x]").with_style_sheet(
                StyleSheet::with_fg(Color::Green),
            ),
            unselected_checkbox: Styled::new("[ ]"),
            option_index_prefix: IndexPrefix::Omitted,
        }
    }
}

} // verus!
