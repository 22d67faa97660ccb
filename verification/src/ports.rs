//! Capability interfaces the use cases are parameterized over, with a
//! standard implementation each under the gateways.

pub mod colorer;
pub mod conversion;
pub mod regex_manager;
pub mod searcher;
