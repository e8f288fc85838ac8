//! Colour themes for a terminal spreadsheet viewer: the built-in palettes,
//! user-defined themes layered on top of them, and the set of themes that the
//! viewer cycles through.

pub mod color;
pub mod scheme;
pub mod names;
pub mod config;
pub mod theme;
pub mod laws;
pub mod properties;
