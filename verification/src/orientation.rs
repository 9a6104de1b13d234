//! Orientation of a slider: horizontal (left to right) or vertical
//! (bottom to top).

use vstd::prelude::*;

verus! {

/// Orientation of the slider.
#[derive(Debug, Clone, Copy, PartialEq, Eq, Structural, Default)]
pub enum SliderOrientation {
    /// Horizontal slider (left to right).
    #[default]
    Horizontal,
    /// Vertical slider (bottom to top).
    Vertical,
}

impl SliderOrientation {
    /// Returns true if the orientation is horizontal.
    pub fn is_horizontal(&self) -> (r: bool)
        ensures
            r == (*self == SliderOrientation::Horizontal),
    {
        match self {
            SliderOrientation::Horizontal => true,
            SliderOrientation::Vertical => false,
        }
    }

    /// Returns true if the orientation is vertical.
    pub fn is_vertical(&self) -> (r: bool)
        ensures
            r == (*self == SliderOrientation::Vertical),
    {
        match self {
            SliderOrientation::Horizontal => false,
            SliderOrientation::Vertical => true,
        }
    }

    /// Toggles the orientation in place.
    pub fn toggle(&mut self)
        ensures
            *final(self) == old(self).spec_opposite(),
    {
        *self = match self {
            SliderOrientation::Horizontal => SliderOrientation::Vertical,
            SliderOrientation::Vertical => SliderOrientation::Horizontal,
        };
    }

    /// The orientation other than this one.
    pub open spec fn spec_opposite(self) -> SliderOrientation {
        match self {
            SliderOrientation::Horizontal => SliderOrientation::Vertical,
            SliderOrientation::Vertical => SliderOrientation::Horizontal,
        }
    }

    /// Returns the opposite orientation.
    pub fn opposite(&self) -> (r: SliderOrientation)
        ensures
            r == self.spec_opposite(),
    {
        match self {
            SliderOrientation::Horizontal => SliderOrientation::Vertical,
            SliderOrientation::Vertical => SliderOrientation::Horizontal,
        }
    }
}

} // verus!
