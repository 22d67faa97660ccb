//! Standard implementations of the capability interfaces.

pub mod color_provider;
pub mod highlighter;
pub mod ripgrep;
