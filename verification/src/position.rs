//! Placement choices for the label and value text around a slider.

use vstd::prelude::*;

verus! {

/// Position of the label beside a vertical slider.
#[derive(Debug, Clone, Copy, PartialEq, Eq, Structural, Default)]
pub enum VerticalLabelPosition {
    /// Label above the slider.
    #[default]
    Top,
    /// Label below the slider.
    Bottom,
}

/// Vertical position of the value text beside a vertical slider.
#[derive(Debug, Clone, Copy, PartialEq, Eq, Structural, Default)]
pub enum VerticalValuePosition {
    /// Value above the slider.
    Top,
    /// Value at the middle of the slider.
    Middle,
    /// Value below the slider.
    #[default]
    Bottom,
}

/// Horizontal alignment of the value text of a vertical slider.
#[derive(Debug, Clone, Copy, PartialEq, Eq, Structural, Default)]
pub enum VerticalValueAlignment {
    /// Value aligned to the left edge.
    Left,
    /// Value centred.
    #[default]
    Center,
    /// Value aligned to the right edge.
    Right,
}

/// Vertical alignment of the bar inside a horizontal slider's region.
#[derive(Debug, Clone, Copy, PartialEq, Eq, Structural, Default)]
pub enum HorizontalBarAlignment {
    /// Bar at the top of the region.
    Top,
    /// Bar at the middle of the region.
    #[default]
    Center,
    /// Bar at the bottom of the region.
    Bottom,
}

/// Horizontal alignment of the value text of a horizontal slider.
#[derive(Debug, Clone, Copy, PartialEq, Eq, Structural)]
pub enum ValueAlignment {
    /// Value at the left edge.
    Left,
    /// Value centred.
    Center,
    /// Value at the right edge.
    Right,
}

} // verus!
