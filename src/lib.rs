//! Color-theme engine: a hex color codec, the configuration loaders with their
//! fallbacks, and the derivation of light, dark and custom theme variants.
pub mod color;
pub mod codec;
pub mod toml_io;
pub mod config;
pub mod theme;
pub mod editor;
