//! A slider widget for terminal user interfaces.
//!
//! The crate keeps a clamped value inside an inclusive range
//! ([`SliderState`]), and turns that value into a bar of glyphs for a
//! rectangular region of character cells ([`Slider`]).  Rendering is a pure
//! computation: it returns the list of cell writes (position, glyph, colour)
//! that a host framework then copies into its own buffer.  The fill
//! algorithm accounts for glyphs whose display width exceeds one column and
//! always covers the region's width (or height) exactly.

pub mod border;
pub mod orientation;
pub mod position;
pub mod prelude;
pub mod render;
pub mod slider;
pub mod state;
pub mod style;
pub mod symbols;
pub mod text;
pub mod width;

pub use orientation::SliderOrientation;
pub use render::CellWrite;
pub use render::Region;
pub use slider::Slider;
pub use state::Ratio;
pub use state::SliderState;
pub use style::Color;
