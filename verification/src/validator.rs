//! Validation-error values handed to the renderer.

use vstd::prelude::*;

verus! {

/// A validation failure: rendered either as the configured default
/// message or as a caller-supplied one.
#[derive(Clone, Debug, PartialEq, Eq)]
pub enum ErrorMessage {
    Standard,
    Custom(String),
}

} // verus!
