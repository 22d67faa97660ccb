//! A point in a document: a row paired with a column.

use vstd::prelude::*;
use crate::entities::coordinates::{Column, Row};

verus! {

#[derive(Debug, Clone, Copy, PartialEq, Eq, Structural)]
pub struct Position {
    pub row: Row,
    pub column: Column,
}

impl Position {
    pub fn new(row: Row, column: Column) -> (r: Self)
        ensures
            r == (Position { row, column }),
    {
        Position { row, column }
    }

    pub fn into_pair(self) -> (r: (Row, Column))
        ensures
            r == (self.row, self.column),
    {
        (self.row, self.column)
    }

    pub fn row(&self) -> (r: Row)
        ensures
            r == self.row,
    {
        self.row
    }

    pub fn column(&self) -> (r: Column)
        ensures
            r == self.column,
    {
        self.column
    }
}

} // verus!
