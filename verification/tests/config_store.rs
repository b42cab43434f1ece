use oma_inquire::config::{
    get_configuration, set_global_render_config, ConfigStore, DEFAULT_PAGE_SIZE, DEFAULT_VIM_MODE,
};
use oma_inquire::input::Input;
use oma_inquire::num_fmt::{dec_string, format_index, int_log10};
use oma_inquire::render_config::RenderConfig;
use oma_inquire::style::{Color, IndexPrefix, StyleSheet, Styled};

#[test]
fn defaults() {
    assert_eq!(DEFAULT_PAGE_SIZE, 7);
    assert!(!DEFAULT_VIM_MODE);
}

#[test]
fn get_returns_stored_configuration() {
    let store = ConfigStore::new(RenderConfig::default());
    let cfg = get_configuration(&store);
    assert_eq!(cfg, RenderConfig::default());
}

#[test]
fn set_replaces_stored_configuration() {
    let mut store = ConfigStore::new(RenderConfig::default());
    let mut cfg = RenderConfig::default();
    cfg.option_index_prefix = IndexPrefix::ZeroPadded;
    cfg.prompt_prefix = Styled::new("$").with_style_sheet(StyleSheet::with_fg(Color::Yellow));
    set_global_render_config(&mut store, cfg.clone());
    assert_eq!(get_configuration(&store), cfg);
    assert_ne!(get_configuration(&store), RenderConfig::default());
}

#[test]
fn default_config_spans() {
    let cfg = RenderConfig::default();
    assert_eq!(cfg.prompt_prefix.content, "?");
    assert_eq!(cfg.answered_prompt_prefix.content, ">");
    assert_eq!(cfg.highlighted_option_prefix.content, ">");
    assert_eq!(cfg.scroll_up_prefix.content, "^");
    assert_eq!(cfg.scroll_down_prefix.content, "v");
    assert_eq!(cfg.selected_checkbox.content, "[x]");
    assert_eq!(cfg.unselected_checkbox.content, "[ ]");
    assert_eq!(cfg.canceled_prompt_indicator.content, "<canceled>");
    assert_eq!(cfg.error_message.default_message, "Invalid input.");
    assert_eq!(cfg.option_index_prefix, IndexPrefix::Omitted);
}

#[test]
fn int_log10_counts_digits() {
    assert_eq!(int_log10(0), 0);
    assert_eq!(int_log10(1), 1);
    assert_eq!(int_log10(9), 1);
    assert_eq!(int_log10(10), 2);
    assert_eq!(int_log10(106), 3);
    assert_eq!(int_log10(1000), 4);
}

#[test]
fn dec_string_renders_decimal() {
    assert_eq!(dec_string(0), "0");
    assert_eq!(dec_string(7), "7");
    assert_eq!(dec_string(106), "106");
    assert_eq!(dec_string(90210), "90210");
}

#[test]
fn format_index_pads_left() {
    assert_eq!(format_index(7, 3, false), "  7");
    assert_eq!(format_index(7, 3, true), "007");
    assert_eq!(format_index(106, 3, false), "106");
    assert_eq!(format_index(106, 2, false), "106");
    assert_eq!(format_index(0, 0, true), "0");
}

#[test]
fn styled_keeps_content_under_new_style() {
    let s = Styled::new("abc").with_style_sheet(StyleSheet::with_fg(Color::Red));
    assert_eq!(s.content, "abc");
    assert_eq!(s.style, StyleSheet::with_fg(Color::Red));
    let t = s.snapshot();
    assert_eq!(t, Styled::new("abc").with_style_sheet(StyleSheet::with_fg(Color::Red)));
}

#[test]
fn input_view_methods() {
    let i = Input::new("hello").with_cursor(2);
    assert_eq!(i.content(), "hello");
    assert_eq!(i.cursor(), 2);
    assert_eq!(i.length(), 5);
    assert!(!i.is_empty());
    assert_eq!(i.pre_cursor(), "he");
    assert!(i.placeholder().is_none());
    let j = Input::new("").with_placeholder("hint");
    assert!(j.is_empty());
    assert_eq!(j.placeholder(), Some("hint"));
    // cursor clamps to the end of the content
    let k = Input::new("ab").with_cursor(9);
    assert_eq!(k.cursor(), 2);
}
