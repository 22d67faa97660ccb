//! The one error kind the engine defines.

use vstd::prelude::*;

verus! {

/// Raised when the keyword list is empty or the composed alternation pattern
/// does not compile. Per-document scans never fail outward: absence of
/// matches is represented as absence of an entry, not as an error.
#[derive(Debug)]
pub enum Error {
    InvalidRegex(String),
}

pub type TodoResult<T> = Result<T, Error>;

} // verus!
