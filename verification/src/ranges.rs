//! Infinite range types: arithmetic progressions with a closed-form
//! index-to-value formula, and their iterators.
//!
//! Indexed access computes `start + step * index` in one multiplication;
//! iteration accumulates by repeated addition. For the exact integer
//! element types provided by this crate the two agree on every index
//! (see `lemma_iter_matches_get_i32`); an element type whose addition
//! rounds would let them drift apart, which is why the agreement is
//! stated as a separate law rather than baked into the iterator contract.
use vstd::prelude::*;

use crate::elements::{ElemAdd, ElemMul, FromIndex, One};
use core::marker::PhantomData;

verus! {

/// An infinite range starting from 1: 1, 2, 3, ...
#[derive(Debug, Copy, PartialEq, Eq)]
pub struct OneToInf<T> {
    _phantom: PhantomData<T>,
}

impl<T> Clone for OneToInf<T> {
    fn clone(&self) -> (r: Self)
        ensures
            r == *self,
    {
        OneToInf { _phantom: PhantomData }
    }
}

impl<T> OneToInf<T> {
    /// The (unique) value of this type, at the specification level.
    pub closed spec fn spec_new() -> Self {
        OneToInf { _phantom: PhantomData }
    }

    pub fn new() -> (r: Self)
        ensures
            r == Self::spec_new(),
    {
        OneToInf { _phantom: PhantomData }
    }
}

impl<T> Default for OneToInf<T> {
    fn default() -> (r: Self)
        ensures
            r == Self::spec_new(),
    {
        OneToInf::new()
    }
}

impl<T: FromIndex + One> OneToInf<T> {
    /// The value at index `i`: the element standing for `i + 1`.
    pub open spec fn view_at(self, i: usize) -> T {
        T::spec_from_index((i + 1) as usize)
    }

    /// Whether `i + 1` is representable in the element type.
    pub open spec fn get_ok(self, i: usize) -> bool {
        i < usize::MAX && T::from_index_ok((i + 1) as usize)
    }

    pub fn get(&self, index: usize) -> (r: T)
        requires
            self.get_ok(index),
        ensures
            r == self.view_at(index),
    {
        T::from_index(index + 1)
    }

    /// Create an iterator yielding 1, 2, 3, ... by repeated addition.
    pub fn iter(&self) -> (r: OneToInfIter<T>)
        ensures
            r.spec_current() == T::spec_one(),
    {
        OneToInfIter { current: T::one(), _phantom: PhantomData }
    }
}

/// Iterator over `OneToInf`.
pub struct OneToInfIter<T> {
    current: T,
    _phantom: PhantomData<T>,
}

impl<T> OneToInfIter<T> {
    /// The element the next call will yield.
    pub closed spec fn spec_current(self) -> T {
        self.current
    }
}

impl<T: ElemAdd + One> OneToInfIter<T> {
    /// Yields the current element and steps forward by one; never
    /// exhausted while the successor is representable.
    pub fn next(&mut self) -> (r: Option<T>)
        requires
            old(self).spec_current().add_ok(T::spec_one()),
        ensures
            r == Some(old(self).spec_current()),
            final(self).spec_current() == old(self).spec_current().add_spec(T::spec_one()),
    {
        let result = self.current;
        self.current = self.current.add_elem(T::one());
        Some(result)
    }
}

/// An infinite unit range starting from a given value.
#[derive(Debug, Clone, Copy, PartialEq, Eq)]
pub struct InfUnitRange<T> {
    start: T,
}

impl<T> InfUnitRange<T> {
    pub fn new(start: T) -> (r: Self)
        ensures
            r.spec_start() == start,
    {
        InfUnitRange { start }
    }

    /// The first element, at the specification level.
    pub closed spec fn spec_start(self) -> T {
        self.start
    }
}

impl<T: FromIndex + ElemAdd> InfUnitRange<T> {
    /// The value at index `i`: `start + i`.
    pub open spec fn view_at(self, i: usize) -> T {
        if i == 0 {
            self.spec_start()
        } else {
            self.spec_start().add_spec(T::spec_from_index(i))
        }
    }

    /// Whether `start + i` is representable in the element type.
    pub open spec fn get_ok(self, i: usize) -> bool {
        i == 0 || (T::from_index_ok(i) && self.spec_start().add_ok(T::spec_from_index(i)))
    }

    pub fn get(&self, index: usize) -> (r: T)
        requires
            self.get_ok(index),
        ensures
            r == self.view_at(index),
    {
        if index == 0 {
            self.start
        } else {
            self.start.add_elem(T::from_index(index))
        }
    }

    /// Create an iterator yielding `start, start + 1, start + 2, ...` by
    /// repeated addition.
    pub fn iter(&self) -> (r: InfUnitRangeIter<T>)
        ensures
            r.spec_current() == self.spec_start(),
    {
        InfUnitRangeIter { current: self.start }
    }
}

/// Iterator over `InfUnitRange`.
pub struct InfUnitRangeIter<T> {
    current: T,
}

impl<T> InfUnitRangeIter<T> {
    /// The element the next call will yield.
    pub closed spec fn spec_current(self) -> T {
        self.current
    }
}

impl<T: ElemAdd + One> InfUnitRangeIter<T> {
    /// Yields the current element and steps forward by one; never
    /// exhausted while the successor is representable.
    pub fn next(&mut self) -> (r: Option<T>)
        requires
            old(self).spec_current().add_ok(T::spec_one()),
        ensures
            r == Some(old(self).spec_current()),
            final(self).spec_current() == old(self).spec_current().add_spec(T::spec_one()),
    {
        let result = self.current;
        self.current = self.current.add_elem(T::one());
        Some(result)
    }
}

/// An infinite step range: start, start+step, start+2*step, ...
#[derive(Debug, Clone, Copy, PartialEq, Eq)]
pub struct InfStepRange<T> {
    start: T,
    step: T,
}

impl<T> InfStepRange<T> {
    pub fn new(start: T, step: T) -> (r: Self)
        ensures
            r.spec_start() == start,
            r.spec_step() == step,
    {
        InfStepRange { start, step }
    }

    /// The first element, at the specification level.
    pub closed spec fn spec_start(self) -> T {
        self.start
    }

    /// The distance between consecutive elements, at the specification
    /// level.
    pub closed spec fn spec_step(self) -> T {
        self.step
    }
}

impl<T: FromIndex + ElemAdd + ElemMul> InfStepRange<T> {
    /// The value at index `i`: `start + step * i`.
    pub open spec fn view_at(self, i: usize) -> T {
        self.spec_start().add_spec(self.spec_step().mul_spec(T::spec_from_index(i)))
    }

    /// Whether `start + step * i` is representable in the element type.
    pub open spec fn get_ok(self, i: usize) -> bool {
        &&& T::from_index_ok(i)
        &&& self.spec_step().mul_ok(T::spec_from_index(i))
        &&& self.spec_start().add_ok(self.spec_step().mul_spec(T::spec_from_index(i)))
    }

    pub fn get(&self, index: usize) -> (r: T)
        requires
            self.get_ok(index),
        ensures
            r == self.view_at(index),
    {
        self.start.add_elem(self.step.mul_elem(T::from_index(index)))
    }

    /// Create an iterator yielding `start, start + step, ...` by repeated
    /// addition.
    pub fn iter(&self) -> (r: InfStepRangeIter<T>)
        ensures
            r.spec_current() == self.spec_start(),
            r.spec_step() == self.spec_step(),
    {
        InfStepRangeIter { current: self.start, step: self.step }
    }
}

/// Iterator over `InfStepRange`.
pub struct InfStepRangeIter<T> {
    current: T,
    step: T,
}

impl<T> InfStepRangeIter<T> {
    /// The element the next call will yield.
    pub closed spec fn spec_current(self) -> T {
        self.current
    }

    /// The distance added at each step, at the specification level.
    pub closed spec fn spec_step(self) -> T {
        self.step
    }
}

impl<T: ElemAdd> InfStepRangeIter<T> {
    /// Yields the current element and adds the step; never exhausted
    /// while the next element is representable.
    pub fn next(&mut self) -> (r: Option<T>)
        requires
            old(self).spec_current().add_ok(old(self).spec_step()),
        ensures
            r == Some(old(self).spec_current()),
            final(self).spec_current() == old(self).spec_current().add_spec(
                old(self).spec_step(),
            ),
            final(self).spec_step() == old(self).spec_step(),
    {
        let result = self.current;
        self.current = self.current.add_elem(self.step);
        Some(result)
    }
}

/// The element an arithmetic-progression iterator yields at its `k`-th
/// step, accumulated by repeated addition from `current`.
pub open spec fn progression_nth<T: ElemAdd>(current: T, step: T, k: nat) -> T
    decreases k,
{
    if k == 0 {
        current
    } else {
        progression_nth(current.add_spec(step), step, (k - 1) as nat)
    }
}

/// The sequence of elements an arithmetic-progression iterator yields
/// over its first `n` steps.
pub open spec fn progression_trace<T: ElemAdd>(current: T, step: T, n: nat) -> Seq<T>
    decreases n,
{
    if n == 0 {
        Seq::empty()
    } else {
        seq![current] + progression_trace(current.add_spec(step), step, (n - 1) as nat)
    }
}

/// A progression trace over `n` steps holds exactly `n` elements.
pub proof fn lemma_progression_trace_len<T: ElemAdd>(current: T, step: T, n: nat)
    ensures
        progression_trace(current, step, n).len() == n,
    decreases n,
{
    if n > 0 {
        lemma_progression_trace_len(current.add_spec(step), step, (n - 1) as nat);
    }
}

/// Every element of a progression trace is the accumulated value at its
/// position: the trace is determined, element by element, by the starting
/// state alone.
pub proof fn lemma_progression_trace_index<T: ElemAdd>(current: T, step: T, n: nat, k: nat)
    requires
        k < n,
    ensures
        progression_trace(current, step, n)[k as int] == progression_nth(current, step, k),
    decreases k,
{
    let next = current.add_spec(step);
    lemma_progression_trace_len(next, step, (n - 1) as nat);
    if k == 0 {
        assert(progression_trace(current, step, n)[0] == current);
    } else {
        lemma_progression_trace_index(next, step, (n - 1) as nat, (k - 1) as nat);
        assert(progression_trace(current, step, n)[k as int] == progression_trace(
            next,
            step,
            (n - 1) as nat,
        )[k as int - 1]);
    }
}

/// Iteration is deterministic: two iterators over the same progression
/// state yield identical element sequences for every prefix length.
pub proof fn lemma_iterate_deterministic<T: ElemAdd>(
    a: InfStepRangeIter<T>,
    b: InfStepRangeIter<T>,
    n: nat,
)
    requires
        a.spec_current() == b.spec_current(),
        a.spec_step() == b.spec_step(),
    ensures
        progression_trace(a.spec_current(), a.spec_step(), n) == progression_trace(
            b.spec_current(),
            b.spec_step(),
            n,
        ),
{
}

/// For every index `i` within the element type's range, `OneToInf` holds
/// the value `i + 1`.
pub proof fn lemma_one_to_inf_value(r: OneToInf<i32>, i: usize)
    requires
        i + 1 <= i32::MAX,
    ensures
        r.get_ok(i),
        r.view_at(i) == i + 1,
{
}

/// For every index `i` within the element type's range, `InfUnitRange`
/// holds the value `start + i`.
pub proof fn lemma_unit_range_value(r: InfUnitRange<i32>, i: usize)
    requires
        i <= i32::MAX,
        i32::MIN <= r.spec_start() + i <= i32::MAX,
    ensures
        r.get_ok(i),
        r.view_at(i) == r.spec_start() + i,
{
}

/// For every index `i` within the element type's range, `InfStepRange`
/// holds the value `start + step * i`.
pub proof fn lemma_step_range_value(r: InfStepRange<i32>, i: usize)
    requires
        i <= i32::MAX,
        i32::MIN <= r.spec_step() * i <= i32::MAX,
        i32::MIN <= r.spec_start() + r.spec_step() * i <= i32::MAX,
    ensures
        r.get_ok(i),
        r.view_at(i) == r.spec_start() + r.spec_step() * i,
{
}

/// The accumulated value after `k` additions of the step equals the
/// closed form `current + step * k`, for exact integer elements within
/// range at every intermediate position.
pub proof fn lemma_progression_nth_closed_form_i32(current: i32, step: i32, k: nat)
    requires
        forall|j: int| 0 <= j <= k ==> i32::MIN <= current + #[trigger] (step * j) <= i32::MAX,
    ensures
        progression_nth(current, step, k) == current + step * k,
    decreases k,
{
    if k == 0 {
        assert(current + step * 0 == current) by (nonlinear_arith);
    } else {
        assert(i32::MIN <= current + step <= i32::MAX) by {
            assert(current + step * 1 == current + step) by (nonlinear_arith);
        }
        let next = current.add_spec(step);
        assert(forall|j: int| 0 <= j <= k - 1 ==> i32::MIN <= next + #[trigger] (step * j) <= i32::MAX) by {
            assert forall|j: int| 0 <= j <= k - 1 implies i32::MIN <= next + #[trigger] (step
                * j) <= i32::MAX by {
                assert(next + step * j == current + step * (j + 1)) by (nonlinear_arith)
                    requires
                        next == current + step,
                ;
            }
        }
        lemma_progression_nth_closed_form_i32(next, step, (k - 1) as nat);
        assert(next + step * (k - 1) == current + step * k) by (nonlinear_arith)
            requires
                next == current + step,
        ;
    }
}

/// For exact integer elements, iteration's additive accumulation agrees
/// with indexed access's multiplicative closed form: the element an
/// `InfStepRange` iterator yields at step `n` equals `get(n)`, whenever
/// every element up to `n` is representable. An element type whose
/// addition rounds (rather than being exact) would not satisfy this.
pub proof fn lemma_iter_matches_get_i32(r: InfStepRange<i32>, n: usize)
    requires
        n <= i32::MAX,
        i32::MIN <= r.spec_step() * n <= i32::MAX,
        forall|j: int| 0 <= j <= n ==> i32::MIN <= r.spec_start() + #[trigger] (r.spec_step() * j) <= i32::MAX,
    ensures
        r.get_ok(n),
        progression_trace(r.spec_start(), r.spec_step(), (n + 1) as nat)[n as int] == r.view_at(n),
{
    lemma_progression_trace_index(r.spec_start(), r.spec_step(), (n + 1) as nat, n as nat);
    lemma_progression_nth_closed_form_i32(r.spec_start(), r.spec_step(), n as nat);
    lemma_step_range_value(r, n);
}

} // verus!
