//! Display width of strings, in terminal columns.
//!
//! The renderer must know how many columns a glyph occupies: some glyphs
//! (full-width characters, many emoji) take two or more.  The measurement
//! itself comes from the `unicode-width` crate; its result is named here
//! and every contract of the renderer speaks of that name.

use unicode_width::UnicodeWidthStr;
use vstd::prelude::*;

verus! {

/// The display width of a string in terminal columns, as the
/// `unicode-width` crate computes it from the characters alone.
pub uninterp spec fn str_width(s: Seq<char>) -> nat;

/// Relies on unicode_width's `UnicodeWidthStr::width` for `str`: the
/// displayed width of a string in columns, a pure function of its
/// characters.
#[verifier::external_body]
pub(crate) fn display_width(s: &str) -> (r: usize)
    ensures
        r == str_width(s@),
{
    UnicodeWidthStr::width(s)
}

/// The width at which the renderer advances past a glyph: its display
/// width, but at least one column.
pub open spec fn spec_glyph_width(s: Seq<char>) -> nat {
    if str_width(s) < 1 {
        1
    } else {
        str_width(s)
    }
}

/// The display width of a glyph, floored at one column.
pub(crate) fn glyph_width(s: &str) -> (r: usize)
    ensures
        r == spec_glyph_width(s@),
{
    let w = display_width(s);
    if w < 1 {
        1
    } else {
        w
    }
}

} // verus!
