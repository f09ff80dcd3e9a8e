//! Colour palettes.

pub mod gruvbox;
