//! The cached overlay: a mutable wrapper pairing a base infinite array
//! with a sparse index-to-value override mapping.
//!
//! `get` returns the override if one is present and falls through to the
//! base otherwise; the base itself is never mutated. The override mapping
//! grows without bound as distinct indices are set — bounding the working
//! set is the caller's business, via `clear_cache`.
use vstd::prelude::*;

use crate::arrays::InfiniteArray;
use std::collections::HashMap;

verus! {

broadcast use vstd::std_specs::hash::group_hash_axioms;

/// A cached infinite array that stores overridden values and so allows
/// point mutation over an otherwise immutable lazy sequence.
pub struct CachedArray<T, A> {
    base: A,
    cache: HashMap<usize, T>,
}

impl<T: Copy, A: InfiniteArray<T>> CachedArray<T, A> {
    /// The wrapped base array, at the specification level. It never
    /// changes over the overlay's lifetime.
    pub closed spec fn spec_base(self) -> A {
        self.base
    }

    /// The sparse override mapping, at the specification level.
    pub closed spec fn overrides(self) -> Map<usize, T> {
        self.cache@
    }

    /// The value at index `i`: the override if one is present, else the
    /// base's value.
    pub open spec fn view_at(self, i: usize) -> T {
        if self.overrides().dom().contains(i) {
            self.overrides()[i]
        } else {
            self.spec_base().view_at(i)
        }
    }

    /// Whether evaluation at index `i` is defined: overridden indices
    /// always are, the rest exactly where the base is defined.
    pub open spec fn get_ok(self, i: usize) -> bool {
        self.overrides().dom().contains(i) || self.spec_base().get_ok(i)
    }

    /// Create a new cached array wrapping the base array, with no
    /// overrides.
    pub fn new(base: A) -> (r: Self)
        ensures
            r.spec_base() == base,
            r.overrides() == Map::<usize, T>::empty(),
    {
        CachedArray { base, cache: HashMap::new() }
    }

    /// Get the value at the given index: the override if present, else
    /// the base's value, queried fresh.
    pub fn get(&self, index: usize) -> (r: T)
        requires
            self.get_ok(index),
        ensures
            r == self.view_at(index),
    {
        match self.cache.get(&index) {
            Some(v) => *v,
            None => self.base.get(index),
        }
    }

    /// Set the value at the given index, inserting or replacing the
    /// override there; the base is untouched.
    pub fn set(&mut self, index: usize, value: T)
        ensures
            final(self).spec_base() == old(self).spec_base(),
            final(self).overrides() == old(self).overrides().insert(index, value),
    {
        self.cache.insert(index, value);
    }

    /// Get a mutable reference to the override at the given index,
    /// materializing it from the base's value if absent. Whatever the
    /// caller writes through the reference becomes the override.
    pub fn get_mut(&mut self, index: usize) -> (r: &mut T)
        requires
            old(self).get_ok(index),
        ensures
            *r == old(self).view_at(index),
            final(self).spec_base() == old(self).spec_base(),
            final(self).overrides() == old(self).overrides().insert(index, *final(r)),
    {
        let seed: T = match self.cache.get(&index) {
            Some(v) => *v,
            None => self.base.get(index),
        };
        self.cache.entry(index).or_insert(seed)
    }

    /// Create an iterator over the cached array; it consults the
    /// overrides afresh at every step.
    pub fn iter(&self) -> (r: CachedArrayIter<'_, T, A>)
        ensures
            r.spec_cached() == *self,
            r.spec_index() == 0,
    {
        CachedArrayIter { cached: self, index: 0 }
    }

    /// Remove all overrides; subsequent reads fall through entirely to
    /// the base until new overrides are set.
    pub fn clear_cache(&mut self)
        ensures
            final(self).spec_base() == old(self).spec_base(),
            final(self).overrides() == Map::<usize, T>::empty(),
    {
        self.cache.clear();
    }

    /// The number of currently overridden indices.
    pub fn cache_size(&self) -> (r: usize)
        ensures
            r == self.overrides().dom().len(),
    {
        self.cache.len()
    }
}

/// Iterator over a cached array; borrows the overlay it walks.
pub struct CachedArrayIter<'a, T, A> {
    cached: &'a CachedArray<T, A>,
    index: usize,
}

impl<'a, T: Copy, A: InfiniteArray<T>> CachedArrayIter<'a, T, A> {
    /// The overlay being walked, at the specification level.
    pub closed spec fn spec_cached(self) -> CachedArray<T, A> {
        *self.cached
    }

    /// The index the next element will be drawn from.
    pub closed spec fn spec_index(self) -> usize {
        self.index
    }

    /// Yields the next element; never exhausted.
    pub fn next(&mut self) -> (r: Option<T>)
        requires
            old(self).spec_cached().get_ok(old(self).spec_index()),
            old(self).spec_index() < usize::MAX,
        ensures
            r == Some(old(self).spec_cached().view_at(old(self).spec_index())),
            final(self).spec_cached() == old(self).spec_cached(),
            final(self).spec_index() == old(self).spec_index() + 1,
    {
        let result = Some(self.cached.get(self.index));
        self.index = self.index + 1;
        result
    }
}

/// The sequence of elements a cached-array iterator yields over its next
/// `n` steps, starting at index `start`: the overlay's values, in index
/// order.
pub open spec fn overlay_trace<T: Copy, A: InfiniteArray<T>>(
    c: CachedArray<T, A>,
    start: usize,
    n: nat,
) -> Seq<T>
    decreases n,
{
    if n == 0 {
        Seq::empty()
    } else {
        seq![c.view_at(start)] + overlay_trace(c, (start + 1) as usize, (n - 1) as nat)
    }
}

/// Iteration over an overlay is deterministic: two iterators over equal
/// overlay values, starting at equal indices, yield identical element
/// sequences for every prefix length.
pub proof fn lemma_overlay_iterate_deterministic<'a, T: Copy, A: InfiniteArray<T>>(
    a: CachedArrayIter<'a, T, A>,
    b: CachedArrayIter<'a, T, A>,
    n: nat,
)
    requires
        a.spec_cached() == b.spec_cached(),
        a.spec_index() == b.spec_index(),
    ensures
        overlay_trace(a.spec_cached(), a.spec_index(), n) == overlay_trace(
            b.spec_cached(),
            b.spec_index(),
            n,
        ),
{
}

/// An override shadows the base exactly at its own index: after an
/// insert of `v` at `i`, the overlay holds `v` at `i` and is unchanged at
/// every other index, and evaluation at `i` is always defined.
pub proof fn lemma_override_shadows<T: Copy, A: InfiniteArray<T>>(
    before: CachedArray<T, A>,
    after: CachedArray<T, A>,
    i: usize,
    v: T,
    j: usize,
)
    requires
        after.spec_base() == before.spec_base(),
        after.overrides() == before.overrides().insert(i, v),
    ensures
        after.view_at(i) == v,
        after.get_ok(i),
        j != i ==> after.view_at(j) == before.view_at(j),
        j != i ==> (after.get_ok(j) <==> before.get_ok(j)),
{
}

/// With no overrides present the overlay holds the base's value at every
/// index: clearing the cache restores the base everywhere.
pub proof fn lemma_no_overrides_is_base<T: Copy, A: InfiniteArray<T>>(
    c: CachedArray<T, A>,
    i: usize,
)
    requires
        c.overrides() == Map::<usize, T>::empty(),
    ensures
        c.view_at(i) == c.spec_base().view_at(i),
        c.get_ok(i) <==> c.spec_base().get_ok(i),
{
}

} // verus!
