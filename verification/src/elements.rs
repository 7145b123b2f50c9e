//! Capability traits for the numeric element types that infinite arrays
//! range over.
//!
//! Each trait pairs an executable operation with a specification function
//! that pins its result down exactly, and — where the operation is partial
//! on the machine type — a predicate saying on which operands it is
//! defined. Implementations are provided for a closed set of integer
//! element types; an element type lacking a capability simply cannot be
//! used with the components that demand it.
use vstd::prelude::*;

verus! {

/// Element types with a known multiplicative identity.
pub trait One: Copy {
    /// The multiplicative identity, at the specification level.
    spec fn spec_one() -> Self;

    /// Returns the multiplicative identity.
    fn one() -> (r: Self)
        ensures
            r == Self::spec_one(),
    ;
}

/// Element types with a known additive identity.
pub trait Zero: Copy {
    /// The additive identity, at the specification level.
    spec fn spec_zero() -> Self;

    /// Returns the additive identity.
    fn zero() -> (r: Self)
        ensures
            r == Self::spec_zero(),
    ;
}

/// Element types constructible from an unsigned index.
pub trait FromIndex: Copy {
    /// Whether the index `i` is representable in this type.
    spec fn from_index_ok(i: usize) -> bool;

    /// The element standing for the index `i`, at the specification level.
    spec fn spec_from_index(i: usize) -> Self;

    /// Converts the index `i` into an element.
    fn from_index(i: usize) -> (r: Self)
        requires
            Self::from_index_ok(i),
        ensures
            r == Self::spec_from_index(i),
    ;
}

/// Element types supporting addition.
pub trait ElemAdd: Copy {
    /// Whether `self + rhs` is representable in this type.
    spec fn add_ok(self, rhs: Self) -> bool;

    /// The sum, at the specification level.
    spec fn add_spec(self, rhs: Self) -> Self;

    /// Adds `rhs` to `self`.
    fn add_elem(self, rhs: Self) -> (r: Self)
        requires
            self.add_ok(rhs),
        ensures
            r == self.add_spec(rhs),
    ;
}

/// Element types supporting subtraction.
pub trait ElemSub: Copy {
    /// Whether `self - rhs` is representable in this type.
    spec fn sub_ok(self, rhs: Self) -> bool;

    /// The difference, at the specification level.
    spec fn sub_spec(self, rhs: Self) -> Self;

    /// Subtracts `rhs` from `self`.
    fn sub_elem(self, rhs: Self) -> (r: Self)
        requires
            self.sub_ok(rhs),
        ensures
            r == self.sub_spec(rhs),
    ;
}

/// Element types supporting multiplication.
pub trait ElemMul: Copy {
    /// Whether `self * rhs` is representable in this type.
    spec fn mul_ok(self, rhs: Self) -> bool;

    /// The product, at the specification level.
    spec fn mul_spec(self, rhs: Self) -> Self;

    /// Multiplies `self` by `rhs`.
    fn mul_elem(self, rhs: Self) -> (r: Self)
        requires
            self.mul_ok(rhs),
        ensures
            r == self.mul_spec(rhs),
    ;
}

/// Element types supporting division.
pub trait ElemDiv: Copy {
    /// Whether `self / rhs` is defined and representable in this type.
    spec fn div_ok(self, rhs: Self) -> bool;

    /// The quotient, at the specification level.
    spec fn div_spec(self, rhs: Self) -> Self;

    /// Divides `self` by `rhs`.
    fn div_elem(self, rhs: Self) -> (r: Self)
        requires
            self.div_ok(rhs),
        ensures
            r == self.div_spec(rhs),
    ;
}

impl One for i32 {
    open spec fn spec_one() -> i32 {
        1
    }

    fn one() -> (r: i32) {
        1
    }
}

impl Zero for i32 {
    open spec fn spec_zero() -> i32 {
        0
    }

    fn zero() -> (r: i32) {
        0
    }
}

impl FromIndex for i32 {
    open spec fn from_index_ok(i: usize) -> bool {
        i <= i32::MAX
    }

    open spec fn spec_from_index(i: usize) -> i32 {
        i as i32
    }

    fn from_index(i: usize) -> (r: i32) {
        i as i32
    }
}

impl ElemAdd for i32 {
    open spec fn add_ok(self, rhs: i32) -> bool {
        i32::MIN <= self + rhs <= i32::MAX
    }

    open spec fn add_spec(self, rhs: i32) -> i32 {
        (self + rhs) as i32
    }

    fn add_elem(self, rhs: i32) -> (r: i32) {
        self + rhs
    }
}

impl ElemSub for i32 {
    open spec fn sub_ok(self, rhs: i32) -> bool {
        i32::MIN <= self - rhs <= i32::MAX
    }

    open spec fn sub_spec(self, rhs: i32) -> i32 {
        (self - rhs) as i32
    }

    fn sub_elem(self, rhs: i32) -> (r: i32) {
        self - rhs
    }
}

impl ElemMul for i32 {
    open spec fn mul_ok(self, rhs: i32) -> bool {
        i32::MIN <= self * rhs <= i32::MAX
    }

    open spec fn mul_spec(self, rhs: i32) -> i32 {
        (self * rhs) as i32
    }

    fn mul_elem(self, rhs: i32) -> (r: i32) {
        self * rhs
    }
}

impl ElemDiv for i32 {
    open spec fn div_ok(self, rhs: i32) -> bool {
        rhs != 0 && !(self == i32::MIN && rhs == -1)
    }

    open spec fn div_spec(self, rhs: i32) -> i32 {
        if self >= 0 {
            (self / rhs) as i32
        } else {
            (-((-self) / (rhs as int))) as i32
        }
    }

    fn div_elem(self, rhs: i32) -> (r: i32) {
        self / rhs
    }
}

impl One for i64 {
    open spec fn spec_one() -> i64 {
        1
    }

    fn one() -> (r: i64) {
        1
    }
}

impl Zero for i64 {
    open spec fn spec_zero() -> i64 {
        0
    }

    fn zero() -> (r: i64) {
        0
    }
}

impl FromIndex for i64 {
    open spec fn from_index_ok(i: usize) -> bool {
        i <= i64::MAX
    }

    open spec fn spec_from_index(i: usize) -> i64 {
        i as i64
    }

    fn from_index(i: usize) -> (r: i64) {
        i as i64
    }
}

impl ElemAdd for i64 {
    open spec fn add_ok(self, rhs: i64) -> bool {
        i64::MIN <= self + rhs <= i64::MAX
    }

    open spec fn add_spec(self, rhs: i64) -> i64 {
        (self + rhs) as i64
    }

    fn add_elem(self, rhs: i64) -> (r: i64) {
        self + rhs
    }
}

impl ElemSub for i64 {
    open spec fn sub_ok(self, rhs: i64) -> bool {
        i64::MIN <= self - rhs <= i64::MAX
    }

    open spec fn sub_spec(self, rhs: i64) -> i64 {
        (self - rhs) as i64
    }

    fn sub_elem(self, rhs: i64) -> (r: i64) {
        self - rhs
    }
}

impl ElemMul for i64 {
    open spec fn mul_ok(self, rhs: i64) -> bool {
        i64::MIN <= self * rhs <= i64::MAX
    }

    open spec fn mul_spec(self, rhs: i64) -> i64 {
        (self * rhs) as i64
    }

    fn mul_elem(self, rhs: i64) -> (r: i64) {
        self * rhs
    }
}

impl ElemDiv for i64 {
    open spec fn div_ok(self, rhs: i64) -> bool {
        rhs != 0 && !(self == i64::MIN && rhs == -1)
    }

    open spec fn div_spec(self, rhs: i64) -> i64 {
        if self >= 0 {
            (self / rhs) as i64
        } else {
            (-((-self) / (rhs as int))) as i64
        }
    }

    fn div_elem(self, rhs: i64) -> (r: i64) {
        self / rhs
    }
}

impl One for u64 {
    open spec fn spec_one() -> u64 {
        1
    }

    fn one() -> (r: u64) {
        1
    }
}

impl Zero for u64 {
    open spec fn spec_zero() -> u64 {
        0
    }

    fn zero() -> (r: u64) {
        0
    }
}

impl FromIndex for u64 {
    open spec fn from_index_ok(i: usize) -> bool {
        true
    }

    open spec fn spec_from_index(i: usize) -> u64 {
        i as u64
    }

    fn from_index(i: usize) -> (r: u64) {
        i as u64
    }
}

impl ElemAdd for u64 {
    open spec fn add_ok(self, rhs: u64) -> bool {
        self + rhs <= u64::MAX
    }

    open spec fn add_spec(self, rhs: u64) -> u64 {
        (self + rhs) as u64
    }

    fn add_elem(self, rhs: u64) -> (r: u64) {
        self + rhs
    }
}

impl ElemSub for u64 {
    open spec fn sub_ok(self, rhs: u64) -> bool {
        rhs <= self
    }

    open spec fn sub_spec(self, rhs: u64) -> u64 {
        (self - rhs) as u64
    }

    fn sub_elem(self, rhs: u64) -> (r: u64) {
        self - rhs
    }
}

impl ElemMul for u64 {
    open spec fn mul_ok(self, rhs: u64) -> bool {
        self * rhs <= u64::MAX
    }

    open spec fn mul_spec(self, rhs: u64) -> u64 {
        (self * rhs) as u64
    }

    fn mul_elem(self, rhs: u64) -> (r: u64) {
        self * rhs
    }
}

impl ElemDiv for u64 {
    open spec fn div_ok(self, rhs: u64) -> bool {
        rhs != 0
    }

    open spec fn div_spec(self, rhs: u64) -> u64 {
        self / rhs
    }

    fn div_elem(self, rhs: u64) -> (r: u64) {
        self / rhs
    }
}

impl One for usize {
    open spec fn spec_one() -> usize {
        1
    }

    fn one() -> (r: usize) {
        1
    }
}

impl Zero for usize {
    open spec fn spec_zero() -> usize {
        0
    }

    fn zero() -> (r: usize) {
        0
    }
}

impl FromIndex for usize {
    open spec fn from_index_ok(i: usize) -> bool {
        true
    }

    open spec fn spec_from_index(i: usize) -> usize {
        i
    }

    fn from_index(i: usize) -> (r: usize) {
        i
    }
}

impl ElemAdd for usize {
    open spec fn add_ok(self, rhs: usize) -> bool {
        self + rhs <= usize::MAX
    }

    open spec fn add_spec(self, rhs: usize) -> usize {
        (self + rhs) as usize
    }

    fn add_elem(self, rhs: usize) -> (r: usize) {
        self + rhs
    }
}

impl ElemSub for usize {
    open spec fn sub_ok(self, rhs: usize) -> bool {
        rhs <= self
    }

    open spec fn sub_spec(self, rhs: usize) -> usize {
        (self - rhs) as usize
    }

    fn sub_elem(self, rhs: usize) -> (r: usize) {
        self - rhs
    }
}

impl ElemMul for usize {
    open spec fn mul_ok(self, rhs: usize) -> bool {
        self * rhs <= usize::MAX
    }

    open spec fn mul_spec(self, rhs: usize) -> usize {
        (self * rhs) as usize
    }

    fn mul_elem(self, rhs: usize) -> (r: usize) {
        self * rhs
    }
}

impl ElemDiv for usize {
    open spec fn div_ok(self, rhs: usize) -> bool {
        rhs != 0
    }

    open spec fn div_spec(self, rhs: usize) -> usize {
        self / rhs
    }

    fn div_elem(self, rhs: usize) -> (r: usize) {
        self / rhs
    }
}

} // verus!
