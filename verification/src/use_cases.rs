//! The use cases: highlighting and searching, each parameterized over its
//! capability interface.

pub mod highlight;
pub mod search;
