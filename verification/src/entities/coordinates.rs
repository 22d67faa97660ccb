//! Zero-based text coordinates: a column inside a row and a row inside a file.

use vstd::prelude::*;

verus! {

/// A 0-based column index inside one row of text.
#[derive(Debug, Clone, Copy, PartialEq, Eq, Structural)]
pub struct Column(pub usize);

impl Column {
    pub fn column(&self) -> (r: usize)
        ensures
            r == self.0,
    {
        self.0
    }
}

impl PartialOrd for Column {
    fn partial_cmp(&self, other: &Self) -> (r: Option<core::cmp::Ordering>)
    {
        if self.0 < other.0 {
            Some(core::cmp::Ordering::Less)
        } else if self.0 == other.0 {
            Some(core::cmp::Ordering::Equal)
        } else {
            Some(core::cmp::Ordering::Greater)
        }
    }
}

impl vstd::std_specs::cmp::PartialOrdSpecImpl for Column {
    open spec fn obeys_partial_cmp_spec() -> bool {
        true
    }

    open spec fn partial_cmp_spec(&self, other: &Self) -> Option<core::cmp::Ordering> {
        if self.0 < other.0 {
            Some(core::cmp::Ordering::Less)
        } else if self.0 == other.0 {
            Some(core::cmp::Ordering::Equal)
        } else {
            Some(core::cmp::Ordering::Greater)
        }
    }
}

impl From<usize> for Column {
    fn from(value: usize) -> (r: Self) {
        Column(value)
    }
}

impl vstd::std_specs::convert::FromSpecImpl<usize> for Column {
    open spec fn obeys_from_spec() -> bool {
        true
    }

    open spec fn from_spec(value: usize) -> Self {
        Column(value)
    }
}

/// A 0-based row index inside a file.
#[derive(Debug, Clone, Copy, Hash, PartialEq, Eq, Structural)]
pub struct Row(pub usize);

impl Row {
    pub fn row(&self) -> (r: usize)
        ensures
            r == self.0,
    {
        self.0
    }
}

impl From<usize> for Row {
    fn from(value: usize) -> (r: Self) {
        Row(value)
    }
}

impl vstd::std_specs::convert::FromSpecImpl<usize> for Row {
    open spec fn obeys_from_spec() -> bool {
        true
    }

    open spec fn from_spec(value: usize) -> Self {
        Row(value)
    }
}

} // verus!
