//! A conversion capability between a library value and a transport shape.

use vstd::prelude::*;

verus! {

pub trait Conversion: Sized {
    type Source;

    type Target;

    /// What the conversion denotes.
    spec fn spec_convert(from: Self::Source) -> Self::Target;

    fn convert(from: Self::Source) -> (r: Self::Target)
        ensures
            r == Self::spec_convert(from),
    ;
}

} // verus!
