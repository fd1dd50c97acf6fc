//! A small in-memory model for indexed-colour bitmap graphics: an RGBA colour
//! value, a palette with a lookup that is defined for every index, and a
//! rectangle that addresses a region of a larger image.

pub mod color;
pub mod frame;
pub mod palette;

pub use color::Color;
pub use frame::Frame;
pub use frame::Rect;
pub use palette::Palette;
