//! Terminal rendering engine for interactive line-based prompts.
//!
//! The engine tracks the on-screen position of rendered prompt content
//! across soft-wrapped lines, repaints frames by erasing and redrawing
//! prior output, and composes styled text fragments (prefixes, option
//! markers, checkboxes, default values) into a visual layout.

pub mod width;
pub mod position;
pub mod style;
pub mod num_fmt;
pub mod options;
pub mod input;
pub mod render_config;
pub mod config;
pub mod terminal;
pub mod mem_terminal;
pub mod validator;
pub mod backend;
