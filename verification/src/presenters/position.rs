//! Converts a library position into the protocol's pair of 32-bit line and
//! character numbers.

use vstd::prelude::*;
use crate::entities;
use crate::ports::conversion::Conversion;

verus! {

pub struct Position;

impl Conversion for Position {
    type Source = entities::position::Position;

    type Target = (u32, u32);

    open spec fn spec_convert(from: entities::position::Position) -> (u32, u32) {
        (from.row.0 as u32, from.column.0 as u32)
    }

    /// Row and column, truncated to the protocol's 32-bit coordinates.
    fn convert(from: entities::position::Position) -> (r: (u32, u32)) {
        let pair = from.into_pair();
        let line = #[verifier::truncate] (pair.0.row() as u32);
        let character = #[verifier::truncate] (pair.1.column() as u32);
        (line, character)
    }
}

} // verus!
