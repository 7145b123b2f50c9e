//! Infinite array types: the indexing abstraction, the constant arrays,
//! and the function-backed lazy array.
use vstd::prelude::*;

use crate::elements::{One, Zero};
use core::marker::PhantomData;

verus! {

/// An indexable sequence over an unbounded index domain.
///
/// `view_at` is the mathematical model: the value the sequence holds at
/// each index. `get_ok` is the exact domain on which evaluation is
/// defined; outside it the closed form of an implementation would
/// overflow the element type, so `get` may not be called there.
pub trait InfiniteArray<T> {
    /// The value at index `i`, at the specification level.
    spec fn view_at(self, i: usize) -> T;

    /// Whether evaluation at index `i` is defined for the element type.
    spec fn get_ok(self, i: usize) -> bool;

    /// Get the value at the given index.
    fn get(&self, index: usize) -> (r: T)
        requires
            self.get_ok(index),
        ensures
            r == self.view_at(index),
    ;

    /// Get the length: `None`, since these arrays are unbounded.
    fn len(&self) -> (r: Option<usize>)
        ensures
            r is None,
    {
        None
    }
}

/// Marker for infinite vectors (one-dimensional infinite arrays).
pub trait InfiniteVector<T>: InfiniteArray<T> {

}

/// `get` is pure: the value of a sequence at an index is a function of
/// the sequence value and the index alone, so equal indices always hold
/// equal values, and repeated calls of `get` return equal results.
pub proof fn lemma_get_idempotent<T, A: InfiniteArray<T>>(a: A, i: usize, j: usize)
    requires
        i == j,
    ensures
        a.view_at(i) == a.view_at(j),
{
}

/// An infinite array filled with ones.
#[derive(Debug, Copy, PartialEq)]
pub struct Ones<T> {
    _phantom: PhantomData<T>,
}

impl<T> Clone for Ones<T> {
    fn clone(&self) -> (r: Self)
        ensures
            r == *self,
    {
        Ones { _phantom: PhantomData }
    }
}

impl<T> Ones<T> {
    /// The (unique) value of this type, at the specification level.
    pub closed spec fn spec_new() -> Self {
        Ones { _phantom: PhantomData }
    }

    pub fn new() -> (r: Self)
        ensures
            r == Self::spec_new(),
    {
        Ones { _phantom: PhantomData }
    }
}

impl<T> Default for Ones<T> {
    fn default() -> (r: Self)
        ensures
            r == Self::spec_new(),
    {
        Ones::new()
    }
}

impl<T: One> InfiniteArray<T> for Ones<T> {
    /// Every index holds the multiplicative identity.
    open spec fn view_at(self, i: usize) -> T {
        T::spec_one()
    }

    open spec fn get_ok(self, i: usize) -> bool {
        true
    }

    fn get(&self, _index: usize) -> (r: T) {
        T::one()
    }
}

impl<T: One> InfiniteVector<T> for Ones<T> {

}

impl<T: One> Ones<T> {
    /// Create an iterator over the array, yielding the constant forever.
    pub fn iter(&self) -> (r: OnesIter<T>)
        ensures
            r.spec_value() == T::spec_one(),
    {
        OnesIter { value: T::one() }
    }
}

/// Iterator over `Ones`.
pub struct OnesIter<T> {
    value: T,
}

impl<T: Copy> OnesIter<T> {
    /// The constant this iterator yields.
    pub closed spec fn spec_value(self) -> T {
        self.value
    }

    /// Yields the next element; never exhausted.
    pub fn next(&mut self) -> (r: Option<T>)
        ensures
            r == Some(old(self).spec_value()),
            final(self).spec_value() == old(self).spec_value(),
    {
        Some(self.value)
    }
}

/// Every index of an array of ones holds the multiplicative identity,
/// and evaluation is defined everywhere.
pub proof fn lemma_ones_value(a: Ones<i32>, i: usize)
    ensures
        a.get_ok(i),
        a.view_at(i) == 1,
{
}

/// An infinite array filled with zeros.
#[derive(Debug, Copy, PartialEq)]
pub struct Zeros<T> {
    _phantom: PhantomData<T>,
}

impl<T> Clone for Zeros<T> {
    fn clone(&self) -> (r: Self)
        ensures
            r == *self,
    {
        Zeros { _phantom: PhantomData }
    }
}

impl<T> Zeros<T> {
    /// The (unique) value of this type, at the specification level.
    pub closed spec fn spec_new() -> Self {
        Zeros { _phantom: PhantomData }
    }

    pub fn new() -> (r: Self)
        ensures
            r == Self::spec_new(),
    {
        Zeros { _phantom: PhantomData }
    }
}

impl<T> Default for Zeros<T> {
    fn default() -> (r: Self)
        ensures
            r == Self::spec_new(),
    {
        Zeros::new()
    }
}

impl<T: Zero> InfiniteArray<T> for Zeros<T> {
    /// Every index holds the additive identity.
    open spec fn view_at(self, i: usize) -> T {
        T::spec_zero()
    }

    open spec fn get_ok(self, i: usize) -> bool {
        true
    }

    fn get(&self, _index: usize) -> (r: T) {
        T::zero()
    }
}

impl<T: Zero> InfiniteVector<T> for Zeros<T> {

}

impl<T: Zero> Zeros<T> {
    /// Create an iterator over the array, yielding the constant forever.
    pub fn iter(&self) -> (r: ZerosIter<T>)
        ensures
            r.spec_value() == T::spec_zero(),
    {
        ZerosIter { value: T::zero() }
    }
}

/// Iterator over `Zeros`.
pub struct ZerosIter<T> {
    value: T,
}

impl<T: Copy> ZerosIter<T> {
    /// The constant this iterator yields.
    pub closed spec fn spec_value(self) -> T {
        self.value
    }

    /// Yields the next element; never exhausted.
    pub fn next(&mut self) -> (r: Option<T>)
        ensures
            r == Some(old(self).spec_value()),
            final(self).spec_value() == old(self).spec_value(),
    {
        Some(self.value)
    }
}

/// Every index of an array of zeros holds the additive identity, and
/// evaluation is defined everywhere.
pub proof fn lemma_zeros_value(a: Zeros<i32>, i: usize)
    ensures
        a.get_ok(i),
        a.view_at(i) == 0,
{
}

/// Whether the generator function is single-valued at index `i`: any two
/// results it may return there are equal. This is what referential
/// transparency of a pure generator means at the specification level.
pub open spec fn deterministic_at<T, F: Fn(usize) -> T>(f: F, i: usize) -> bool {
    forall|v1: T, v2: T|
        #![trigger f.ensures((i,), v1), f.ensures((i,), v2)]
        f.ensures((i,), v1) && f.ensures((i,), v2) ==> v1 == v2
}

/// An infinite array backed by an arbitrary pure function from index to
/// value. This is the universal implementation target: every derived
/// sequence is, conceptually, one of these.
#[verifier::reject_recursive_types(T)]
pub struct InfiniteArrayFromFn<F, T> where F: Fn(usize) -> T {
    f: F,
    _phantom: PhantomData<T>,
}

impl<F: Fn(usize) -> T + Clone, T> Clone for InfiniteArrayFromFn<F, T> {
    /// Nothing is known of a cloned generator function, so nothing is
    /// promised of the clone.
    fn clone(&self) -> Self {
        InfiniteArrayFromFn { f: self.f.clone(), _phantom: PhantomData }
    }
}

impl<F: Fn(usize) -> T, T> InfiniteArrayFromFn<F, T> {
    /// The backing generator function, at the specification level.
    pub closed spec fn generator(self) -> F {
        self.f
    }

    /// Wrap a pure function as an infinite array. Evaluation is defined
    /// exactly where the function accepts its index and is single-valued,
    /// and there the array holds whatever the function returns.
    pub fn new(f: F) -> (r: Self)
        ensures
            r.generator() == f,
    {
        InfiniteArrayFromFn { f, _phantom: PhantomData }
    }
}

impl<F: Fn(usize) -> T, T> InfiniteArray<T> for InfiniteArrayFromFn<F, T> {
    /// The value the generator returns at `i`.
    open spec fn view_at(self, i: usize) -> T {
        choose|v: T| self.generator().ensures((i,), v)
    }

    open spec fn get_ok(self, i: usize) -> bool {
        self.generator().requires((i,)) && deterministic_at(self.generator(), i)
    }

    fn get(&self, index: usize) -> (r: T)
        ensures
            self.generator().ensures((index,), r),
    {
        let r = (self.f)(index);
        proof {
            assert(self.generator().ensures((index,), r));
            lemma_from_fn_view(*self, index, r);
        }
        r
    }
}

/// Evaluation of a function-backed array is defined wherever the
/// generator accepts its index and is single-valued there.
pub proof fn lemma_from_fn_get_ok<F: Fn(usize) -> T, T>(a: InfiniteArrayFromFn<F, T>, i: usize)
    requires
        a.generator().requires((i,)),
        deterministic_at(a.generator(), i),
    ensures
        a.get_ok(i),
{
}

/// A function-backed array holds, at each index, the value its generator
/// returns there.
pub proof fn lemma_from_fn_view<F: Fn(usize) -> T, T>(a: InfiniteArrayFromFn<F, T>, i: usize, v: T)
    requires
        a.generator().ensures((i,), v),
        deterministic_at(a.generator(), i),
    ensures
        a.view_at(i) == v,
{
}

impl<F: Fn(usize) -> T, T> InfiniteVector<T> for InfiniteArrayFromFn<F, T> {

}

impl<F: Fn(usize) -> T, T> InfiniteArrayFromFn<F, T> {
    /// Create an iterator that borrows this array (the generator is not
    /// duplicated) and yields `f(0), f(1), f(2), ...` indefinitely.
    pub fn iter(&self) -> (r: InfiniteArrayFromFnIter<'_, F, T>)
        ensures
            r.spec_arr() == *self,
            r.spec_index() == 0,
    {
        InfiniteArrayFromFnIter { arr: self, index: 0 }
    }
}

/// Iterator over `InfiniteArrayFromFn`; borrows the array it walks.
#[verifier::reject_recursive_types(T)]
pub struct InfiniteArrayFromFnIter<'a, F, T> where F: Fn(usize) -> T {
    arr: &'a InfiniteArrayFromFn<F, T>,
    index: usize,
}

impl<'a, F: Fn(usize) -> T, T> InfiniteArrayFromFnIter<'a, F, T> {
    /// The array being walked, at the specification level.
    pub closed spec fn spec_arr(self) -> InfiniteArrayFromFn<F, T> {
        *self.arr
    }

    /// The index the next element will be drawn from.
    pub closed spec fn spec_index(self) -> usize {
        self.index
    }

    /// Yields the next element; never exhausted.
    pub fn next(&mut self) -> (r: Option<T>)
        requires
            old(self).spec_arr().get_ok(old(self).spec_index()),
            old(self).spec_index() < usize::MAX,
        ensures
            r == Some(old(self).spec_arr().view_at(old(self).spec_index())),
            final(self).spec_arr() == old(self).spec_arr(),
            final(self).spec_index() == old(self).spec_index() + 1,
    {
        let r = Some(self.arr.get(self.index));
        self.index = self.index + 1;
        r
    }
}

} // verus!
