//! Building blocks for simple data visualisations: colors, categorical
//! scales, and the traits that drawable shapes and rendering contexts
//! implement.

pub mod color;
pub mod glyph;
pub mod mark;
pub mod ordinal_scale;
pub mod utils;

pub use color::Color;
pub use color::ParseColorError;
pub use glyph::Glyph;
pub use mark::TextAlign;
pub use ordinal_scale::OrdinalScale;
pub use ordinal_scale::OrdinalScaleBuilder;
