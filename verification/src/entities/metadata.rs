//! Per-row scan context: the row's length and its first non-whitespace column.

use vstd::prelude::*;
use crate::entities::coordinates::Column;

verus! {

/// What a scan records about one row besides its matches. The first
/// non-whitespace column never exceeds the row's length.
#[derive(Debug, Clone, Copy, PartialEq, Eq, Structural)]
pub struct RowMetadata {
    pub line_len: usize,
    pub first_non_zero_pos: Column,
}

impl RowMetadata {
    pub open spec fn wf(&self) -> bool {
        self.first_non_zero_pos.0 <= self.line_len
    }

    pub fn new(line_len: usize, first_non_zero_pos: Column) -> (r: Self)
        requires
            first_non_zero_pos.0 <= line_len,
        ensures
            r == (RowMetadata { line_len, first_non_zero_pos }),
            r.wf(),
    {
        RowMetadata { line_len, first_non_zero_pos }
    }

    pub fn line_len(&self) -> (r: usize)
        ensures
            r == self.line_len,
    {
        self.line_len
    }

    pub fn first_non_zero_pos(&self) -> (r: Column)
        ensures
            r == self.first_non_zero_pos,
    {
        self.first_non_zero_pos
    }
}

} // verus!
