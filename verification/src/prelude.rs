//! Convenient imports for the common types.

pub use crate::orientation::SliderOrientation;
pub use crate::slider::Slider;
pub use crate::state::SliderState;
