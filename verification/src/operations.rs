//! Operations on infinite arrays.
//!
//! Every operation takes its input sequence(s) by value and returns a new
//! lazy sequence; nothing is precomputed, and each `get` on the result
//! re-evaluates the inputs at the indices it needs.
use vstd::prelude::*;

use crate::arrays::InfiniteArray;
use crate::elements::{ElemAdd, ElemDiv, ElemMul, ElemSub, One, Zero};
use core::marker::PhantomData;

verus! {

/// The sum of the first `i + 1` elements of `a`, folded left from the
/// additive identity: `(zero + a[0]) + a[1] + ... + a[i]`.
pub open spec fn partial_sum<T: Zero + ElemAdd, A: InfiniteArray<T>>(a: A, i: usize) -> T
    decreases i,
{
    if i == 0 {
        T::spec_zero().add_spec(a.view_at(0))
    } else {
        partial_sum(a, (i - 1) as usize).add_spec(a.view_at(i))
    }
}

/// Whether the fold that computes `partial_sum(a, i)` is defined: every
/// element up to `i` can be evaluated and every intermediate sum is
/// representable.
pub open spec fn partial_sum_ok<T: Zero + ElemAdd, A: InfiniteArray<T>>(a: A, i: usize) -> bool
    decreases i,
{
    if i == 0 {
        a.get_ok(0) && T::spec_zero().add_ok(a.view_at(0))
    } else {
        &&& partial_sum_ok(a, (i - 1) as usize)
        &&& a.get_ok(i)
        &&& partial_sum(a, (i - 1) as usize).add_ok(a.view_at(i))
    }
}

/// A defined fold is defined on every shorter prefix as well.
pub proof fn lemma_partial_sum_ok_prefix<T: Zero + ElemAdd, A: InfiniteArray<T>>(
    a: A,
    i: usize,
    j: usize,
)
    requires
        partial_sum_ok(a, i),
        j <= i,
    ensures
        partial_sum_ok(a, j),
    decreases i,
{
    if j < i {
        lemma_partial_sum_ok_prefix(a, (i - 1) as usize, j);
    }
}

/// The lazy cumulative sum of a base array.
pub struct CumSum<A> {
    pub arr: A,
}

impl<T: Zero + ElemAdd, A: InfiniteArray<T>> InfiniteArray<T> for CumSum<A> {
    /// Index `i` holds the sum of the base's elements `0 ..= i`.
    open spec fn view_at(self, i: usize) -> T {
        partial_sum(self.arr, i)
    }

    open spec fn get_ok(self, i: usize) -> bool {
        partial_sum_ok(self.arr, i)
    }

    fn get(&self, index: usize) -> (r: T) {
        proof {
            lemma_partial_sum_ok_prefix(self.arr, index, 0);
        }
        let mut acc: T = T::zero().add_elem(self.arr.get(0));
        let mut k: usize = 0;
        while k < index
            invariant
                k <= index,
                partial_sum_ok(self.arr, index),
                acc == partial_sum(self.arr, k),
            decreases index - k,
        {
            proof {
                lemma_partial_sum_ok_prefix(self.arr, index, (k + 1) as usize);
            }
            k = k + 1;
            acc = acc.add_elem(self.arr.get(k));
        }
        acc
    }
}

/// Cumulative sum of an infinite array: the result holds, at each index
/// `i`, the sum of `arr`'s elements `0 ..= i`, recomputed by summation on
/// every call.
pub fn cumsum<T: Zero + ElemAdd, A: InfiniteArray<T>>(arr: A) -> (r: CumSum<A>)
    ensures
        r.arr == arr,
{
    CumSum { arr }
}

/// The running sum over an array of ones is the index plus one: summation
/// of the multiplicative identity counts the elements summed.
pub proof fn lemma_cumsum_of_ones(a: crate::arrays::Ones<i32>, i: usize)
    requires
        i + 1 <= i32::MAX,
    ensures
        partial_sum_ok(a, i),
        partial_sum(a, i) == i + 1,
    decreases i,
{
    if i > 0 {
        lemma_cumsum_of_ones(a, (i - 1) as usize);
    }
}

/// Whether the mapped function is single-valued at input `x`: any two
/// results it may return there are equal.
pub open spec fn map_deterministic_at<TIn, TOut, F: Fn(TIn) -> TOut>(f: F, x: TIn) -> bool {
    forall|v1: TOut, v2: TOut|
        #![trigger f.ensures((x,), v1), f.ensures((x,), v2)]
        f.ensures((x,), v1) && f.ensures((x,), v2) ==> v1 == v2
}

/// A lazy elementwise map of a pure function over a base array.
pub struct Broadcast<TIn, A, F> {
    pub arr: A,
    pub f: F,
    pub _phantom: PhantomData<TIn>,
}

impl<TIn, TOut, A: InfiniteArray<TIn>, F: Fn(TIn) -> TOut> InfiniteArray<TOut> for Broadcast<
    TIn,
    A,
    F,
> {
    /// Index `i` holds the value the function returns on the base's
    /// element at `i`.
    open spec fn view_at(self, i: usize) -> TOut {
        choose|v: TOut| self.f.ensures((self.arr.view_at(i),), v)
    }

    open spec fn get_ok(self, i: usize) -> bool {
        &&& self.arr.get_ok(i)
        &&& self.f.requires((self.arr.view_at(i),))
        &&& map_deterministic_at(self.f, self.arr.view_at(i))
    }

    fn get(&self, index: usize) -> (r: TOut)
        ensures
            self.f.ensures((self.arr.view_at(index),), r),
    {
        let x = self.arr.get(index);
        let r = (self.f)(x);
        proof {
            assert(self.f.ensures((self.arr.view_at(index),), r));
            lemma_broadcast_view(*self, index, r);
        }
        r
    }
}

/// A broadcast result holds, at each index, the value the mapped function
/// returns on the base's element there.
pub proof fn lemma_broadcast_view<TIn, TOut, A: InfiniteArray<TIn>, F: Fn(TIn) -> TOut>(
    d: Broadcast<TIn, A, F>,
    i: usize,
    v: TOut,
)
    requires
        d.f.ensures((d.arr.view_at(i),), v),
        map_deterministic_at(d.f, d.arr.view_at(i)),
    ensures
        d.view_at(i) == v,
{
}

/// Evaluation of a broadcast result is defined wherever the base is
/// defined and the function accepts and is single-valued on the base's
/// value there.
pub proof fn lemma_broadcast_get_ok<TIn, TOut, A: InfiniteArray<TIn>, F: Fn(TIn) -> TOut>(
    d: Broadcast<TIn, A, F>,
    i: usize,
)
    requires
        d.arr.get_ok(i),
        d.f.requires((d.arr.view_at(i),)),
        map_deterministic_at(d.f, d.arr.view_at(i)),
    ensures
        d.get_ok(i),
{
}

/// Broadcast a pure function over an infinite array: the result holds
/// `f(arr[i])` at each index `i`.
pub fn broadcast<TIn, TOut, A: InfiniteArray<TIn>, F: Fn(TIn) -> TOut>(arr: A, f: F) -> (r:
    Broadcast<TIn, A, F>)
    ensures
        r.arr == arr,
        r.f == f,
{
    Broadcast { arr, f, _phantom: PhantomData }
}

/// The lazy elementwise sum of two arrays.
pub struct AddArrays<A, B> {
    pub a: A,
    pub b: B,
}

impl<T: ElemAdd, A: InfiniteArray<T>, B: InfiniteArray<T>> InfiniteArray<T> for AddArrays<A, B> {
    /// Index `i` holds `a[i] + b[i]`.
    open spec fn view_at(self, i: usize) -> T {
        self.a.view_at(i).add_spec(self.b.view_at(i))
    }

    open spec fn get_ok(self, i: usize) -> bool {
        self.a.get_ok(i) && self.b.get_ok(i) && self.a.view_at(i).add_ok(self.b.view_at(i))
    }

    fn get(&self, index: usize) -> (r: T) {
        self.a.get(index).add_elem(self.b.get(index))
    }
}

/// Element-wise addition of two infinite arrays.
pub fn add_arrays<T: ElemAdd, A: InfiniteArray<T>, B: InfiniteArray<T>>(a: A, b: B) -> (r:
    AddArrays<A, B>)
    ensures
        r.a == a,
        r.b == b,
{
    AddArrays { a, b }
}

/// The lazy elementwise difference of two arrays.
pub struct SubArrays<A, B> {
    pub a: A,
    pub b: B,
}

impl<T: ElemSub, A: InfiniteArray<T>, B: InfiniteArray<T>> InfiniteArray<T> for SubArrays<A, B> {
    /// Index `i` holds `a[i] - b[i]`.
    open spec fn view_at(self, i: usize) -> T {
        self.a.view_at(i).sub_spec(self.b.view_at(i))
    }

    open spec fn get_ok(self, i: usize) -> bool {
        self.a.get_ok(i) && self.b.get_ok(i) && self.a.view_at(i).sub_ok(self.b.view_at(i))
    }

    fn get(&self, index: usize) -> (r: T) {
        self.a.get(index).sub_elem(self.b.get(index))
    }
}

/// Element-wise subtraction of two infinite arrays.
pub fn sub_arrays<T: ElemSub, A: InfiniteArray<T>, B: InfiniteArray<T>>(a: A, b: B) -> (r:
    SubArrays<A, B>)
    ensures
        r.a == a,
        r.b == b,
{
    SubArrays { a, b }
}

/// The lazy elementwise product of two arrays.
pub struct MulArrays<A, B> {
    pub a: A,
    pub b: B,
}

impl<T: ElemMul, A: InfiniteArray<T>, B: InfiniteArray<T>> InfiniteArray<T> for MulArrays<A, B> {
    /// Index `i` holds `a[i] * b[i]`.
    open spec fn view_at(self, i: usize) -> T {
        self.a.view_at(i).mul_spec(self.b.view_at(i))
    }

    open spec fn get_ok(self, i: usize) -> bool {
        self.a.get_ok(i) && self.b.get_ok(i) && self.a.view_at(i).mul_ok(self.b.view_at(i))
    }

    fn get(&self, index: usize) -> (r: T) {
        self.a.get(index).mul_elem(self.b.get(index))
    }
}

/// Element-wise multiplication of two infinite arrays.
pub fn mul_arrays<T: ElemMul, A: InfiniteArray<T>, B: InfiniteArray<T>>(a: A, b: B) -> (r:
    MulArrays<A, B>)
    ensures
        r.a == a,
        r.b == b,
{
    MulArrays { a, b }
}

/// The lazy elementwise quotient of two arrays.
pub struct DivArrays<A, B> {
    pub a: A,
    pub b: B,
}

impl<T: ElemDiv, A: InfiniteArray<T>, B: InfiniteArray<T>> InfiniteArray<T> for DivArrays<A, B> {
    /// Index `i` holds `a[i] / b[i]`. Division by the additive identity is
    /// not special-cased: it is simply outside the domain, as it is for
    /// the element type itself.
    open spec fn view_at(self, i: usize) -> T {
        self.a.view_at(i).div_spec(self.b.view_at(i))
    }

    open spec fn get_ok(self, i: usize) -> bool {
        self.a.get_ok(i) && self.b.get_ok(i) && self.a.view_at(i).div_ok(self.b.view_at(i))
    }

    fn get(&self, index: usize) -> (r: T) {
        self.a.get(index).div_elem(self.b.get(index))
    }
}

/// Element-wise division of two infinite arrays.
pub fn div_arrays<T: ElemDiv, A: InfiniteArray<T>, B: InfiniteArray<T>>(a: A, b: B) -> (r:
    DivArrays<A, B>)
    ensures
        r.a == a,
        r.b == b,
{
    DivArrays { a, b }
}

/// A lazy array offset by a scalar.
pub struct AddScalar<T, A> {
    pub arr: A,
    pub scalar: T,
}

impl<T: ElemAdd, A: InfiniteArray<T>> InfiniteArray<T> for AddScalar<T, A> {
    /// Index `i` holds `arr[i] + scalar`.
    open spec fn view_at(self, i: usize) -> T {
        self.arr.view_at(i).add_spec(self.scalar)
    }

    open spec fn get_ok(self, i: usize) -> bool {
        self.arr.get_ok(i) && self.arr.view_at(i).add_ok(self.scalar)
    }

    fn get(&self, index: usize) -> (r: T) {
        self.arr.get(index).add_elem(self.scalar)
    }
}

/// Scalar addition: the result holds `arr[i] + scalar` at each index.
pub fn add_scalar<T: ElemAdd, A: InfiniteArray<T>>(arr: A, scalar: T) -> (r: AddScalar<T, A>)
    ensures
        r.arr == arr,
        r.scalar == scalar,
{
    AddScalar { arr, scalar }
}

/// A lazy array scaled by a scalar.
pub struct MulScalar<T, A> {
    pub arr: A,
    pub scalar: T,
}

impl<T: ElemMul, A: InfiniteArray<T>> InfiniteArray<T> for MulScalar<T, A> {
    /// Index `i` holds `arr[i] * scalar`.
    open spec fn view_at(self, i: usize) -> T {
        self.arr.view_at(i).mul_spec(self.scalar)
    }

    open spec fn get_ok(self, i: usize) -> bool {
        self.arr.get_ok(i) && self.arr.view_at(i).mul_ok(self.scalar)
    }

    fn get(&self, index: usize) -> (r: T) {
        self.arr.get(index).mul_elem(self.scalar)
    }
}

/// Scalar multiplication: the result holds `arr[i] * scalar` at each
/// index.
pub fn mul_scalar<T: ElemMul, A: InfiniteArray<T>>(arr: A, scalar: T) -> (r: MulScalar<T, A>)
    ensures
        r.arr == arr,
        r.scalar == scalar,
{
    MulScalar { arr, scalar }
}

} // verus!
