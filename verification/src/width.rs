//! Display width of a single glyph in terminal cells.

use vstd::prelude::*;

verus! {

/// The number of terminal cells a glyph occupies (0 to 3 per the
/// Unicode East-Asian-width rules; control characters count as 0).
pub uninterp spec fn glyph_width(c: char) -> nat;

/// Relies on unicode_width's `UnicodeWidthChar::width`: the width of a
/// character depends on the character alone and is at most 3 cells (the
/// width tables hold 2-bit entries, with one special case of width 3);
/// control characters (for which the crate returns `None`) count as 0.
#[verifier::external_body]
pub fn display_width(c: char) -> (w: u16)
    ensures
        w as nat == glyph_width(c),
        w <= 3,
{
    unicode_width::UnicodeWidthChar::width(c).unwrap_or(0) as u16
}

} // verus!
