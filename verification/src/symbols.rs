//! Glyphs for the filled portion, the empty portion, and the handle of a
//! slider.

use vstd::prelude::*;

verus! {

/// Default filled symbol - thick horizontal line.
pub const FILLED_THICK_LINE: &'static str = "━";

/// Filled symbol - thin horizontal line.
pub const FILLED_THIN_LINE: &'static str = "─";

/// Filled symbol - double horizontal line.
pub const FILLED_DOUBLE_LINE: &'static str = "═";

/// Filled symbol - full block.
pub const FILLED_BLOCK: &'static str = "█";

/// Filled symbol - dark shade.
pub const FILLED_DARK_SHADE: &'static str = "▓";

/// Filled symbol - light shade.
pub const FILLED_LIGHT_SHADE: &'static str = "░";

/// Filled symbol - horizontal bar.
pub const FILLED_BAR: &'static str = "▬";

/// Filled symbol - progress bar filled.
pub const FILLED_PROGRESS: &'static str = "▰";

/// Filled symbol - braille full.
pub const FILLED_BRAILLE: &'static str = "⣿";

/// Filled symbol - wave.
pub const FILLED_WAVE: &'static str = "≈";

/// Filled symbol - hash sign.
pub const FILLED_HASH: &'static str = "#";

/// Filled symbol - small square.
pub const FILLED_SQUARE: &'static str = "■";

/// Filled symbol - circle.
pub const FILLED_CIRCLE: &'static str = "●";

/// Filled symbol - vertical bar.
pub const FILLED_VERTICAL_BAR: &'static str = "│";

/// Filled symbol - vertical line (for vertical sliders).
pub const FILLED_VERTICAL_LINE: &'static str = "│";

/// Filled symbol - horizontal line (for horizontal sliders).
pub const FILLED_HORIZONTAL_LINE: &'static str = "─";

/// Default empty symbol - thin horizontal line.
pub const EMPTY_THIN_LINE: &'static str = "─";

/// Empty symbol - space.
pub const EMPTY_SPACE: &'static str = " ";

/// Empty symbol - dashed line.
pub const EMPTY_DASHED: &'static str = "╌";

/// Empty symbol - progress bar empty.
pub const EMPTY_PROGRESS: &'static str = "▱";

/// Empty symbol - braille lower dots.
pub const EMPTY_BRAILLE: &'static str = "⣀";

/// Empty symbol - tilde.
pub const EMPTY_WAVE: &'static str = "˜";

/// Empty symbol - period.
pub const EMPTY_DOT: &'static str = ".";

/// Empty symbol - horizontal bar outline.
pub const EMPTY_BAR_OUTLINE: &'static str = "▭";

/// Empty symbol - small white square.
pub const EMPTY_SQUARE: &'static str = "□";

/// Empty symbol - white circle.
pub const EMPTY_CIRCLE: &'static str = "○";

/// Empty symbol - vertical bar.
pub const EMPTY_VERTICAL_BAR: &'static str = "│";

/// Empty symbol - vertical line (for vertical sliders).
pub const EMPTY_VERTICAL_LINE: &'static str = "│";

/// Empty symbol - horizontal line (for horizontal sliders).
pub const EMPTY_HORIZONTAL_LINE: &'static str = "─";

/// Default handle symbol - circle.
pub const HANDLE_CIRCLE: &'static str = "●";

/// Handle symbol - double circle.
pub const HANDLE_DOUBLE_CIRCLE: &'static str = "◉";

/// Handle symbol - large circle.
pub const HANDLE_LARGE_CIRCLE: &'static str = "◯";

/// Handle symbol - black circle.
pub const HANDLE_BLACK_CIRCLE: &'static str = "⬤";

/// Handle symbol - square.
pub const HANDLE_SQUARE: &'static str = "■";

/// Handle symbol - diamond.
pub const HANDLE_DIAMOND: &'static str = "◆";

/// Handle symbol - double diamond.
pub const HANDLE_DOUBLE_DIAMOND: &'static str = "◈";

/// Handle symbol - triangle right.
pub const HANDLE_TRIANGLE_RIGHT: &'static str = "▶";

/// Handle symbol - vertical bar.
pub const HANDLE_VERTICAL_BAR: &'static str = "│";

/// Handle symbol - at sign.
pub const HANDLE_AT: &'static str = "@";

/// Handle symbol - sparkle.
pub const HANDLE_SPARKLE: &'static str = "✨";

/// Handle symbol - hexagon.
pub const HANDLE_HEXAGON: &'static str = "⬢";

/// Handle symbol - horizontal line (for vertical sliders).
pub const HANDLE_HORIZONTAL_LINE: &'static str = "━";

/// Handle symbol - vertical line (for horizontal sliders).
pub const HANDLE_VERTICAL_LINE: &'static str = "│";

/// A complete symbol set for a slider style.
#[derive(Debug, Clone, Copy, PartialEq, Eq)]
pub struct SymbolSet {
    /// Symbol for the filled portion.
    pub filled: &'static str,
    /// Symbol for the empty portion.
    pub empty: &'static str,
    /// Symbol for the handle.
    pub handle: &'static str,
}

impl SymbolSet {
    /// A symbol set from its three glyphs.
    pub fn new(filled: &'static str, empty: &'static str, handle: &'static str) -> (r: SymbolSet)
        ensures
            r.filled@ == filled@,
            r.empty@ == empty@,
            r.handle@ == handle@,
    {
        SymbolSet { filled, empty, handle }
    }
}

} // verus!
