//! A library of lazily evaluated, conceptually unbounded sequences
//! ("infinite arrays") with indexed access, iteration, and pointwise
//! arithmetic composition.
//!
//! No sequence is ever materialized: evaluation happens only at the moment
//! `get(index)` is called. Every sequence carries a mathematical model of
//! the value it holds at each index (`view_at`), together with the exact
//! domain on which evaluation is defined (`get_ok`), and every exec
//! function is verified against that model.
use vstd::prelude::*;

pub mod arrays;
pub mod cache;
pub mod elements;
pub mod operations;
pub mod ranges;

pub use arrays::{InfiniteArray, InfiniteArrayFromFn, InfiniteVector, Ones, Zeros};
pub use cache::CachedArray;
pub use elements::{ElemAdd, ElemDiv, ElemMul, ElemSub, FromIndex, One, Zero};
pub use operations::{
    add_arrays, add_scalar, broadcast, cumsum, div_arrays, mul_arrays, mul_scalar, sub_arrays,
};
pub use ranges::{InfStepRange, InfUnitRange, OneToInf};

verus! {

/// The index value used to stand in for an unbounded extent.
pub const INFINITY: usize = usize::MAX;

/// Types that can represent an unbounded ("infinite") sentinel value.
pub trait Infinite: Sized {
    /// The sentinel value, at the specification level.
    spec fn spec_infinity() -> Self;

    /// Returns the sentinel value standing for infinity.
    fn infinity() -> (r: Self)
        ensures
            r == Self::spec_infinity(),
    ;
}

impl Infinite for usize {
    open spec fn spec_infinity() -> usize {
        usize::MAX
    }

    fn infinity() -> (r: usize) {
        usize::MAX
    }
}

impl Infinite for isize {
    open spec fn spec_infinity() -> isize {
        isize::MAX
    }

    fn infinity() -> (r: isize) {
        isize::MAX
    }
}

} // verus!
