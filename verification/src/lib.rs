//! An incremental keyword-indexing and color-interval engine for an editor
//! language server: it scans workspace text for configured keywords (such as
//! "TODO"), keeps an in-memory index of matches per file and row, and turns a
//! row's matches into the column intervals that should be rendered with a
//! background color.

pub mod config;
pub mod controllers;
pub mod entities;
pub mod extension;
pub mod gateways;
pub mod ports;
pub mod presenters;
pub mod use_cases;

pub use entities::color::{Color, ColorType, Colors};
pub use entities::coordinates::{Column, Row};
pub use entities::error::{Error, TodoResult};
pub use entities::file_matches::{FileState, Match, RowEntry};
pub use entities::metadata::RowMetadata;
pub use entities::position::Position;
pub use entities::state::State;
