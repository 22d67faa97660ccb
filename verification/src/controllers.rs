//! Controllers: thin adapters between protocol-shaped inputs and the use
//! cases.

pub mod highlight;
pub mod lsp;
pub mod search;
