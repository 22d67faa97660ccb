//! Value types of the index: coordinates, colors, row metadata, matches,
//! per-file and per-workspace indexes, and the error kind.

pub mod color;
pub mod coordinates;
pub mod error;
pub mod file_matches;
pub mod metadata;
pub mod position;
pub mod state;
pub mod strmap;
