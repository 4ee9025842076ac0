//! The public operations of the two capabilities: the writer handle, which
//! alone may append and change capacity, and the read-only view, which may be
//! cloned freely and observes a consistent, append-only prefix.

use crate::raw::CVecRaw;
use crate::sharing::cell_elems_exact;
use crate::sharing::cell_len_exact;
use crate::sharing::cell_swap;
use crate::sharing::cell_view_elems;
use crate::sharing::cell_view_len;
use crate::sharing::counters_refresh;
use crate::sharing::read_cap;
use crate::sharing::read_len;
use crate::sharing::view_dup;
use crate::sharing::view_new;
use crate::sharing::writer_new;
use crate::sharing::CVec;
use crate::sharing::CVecView;
use vstd::prelude::*;

verus! {

impl<T> CVec<T> {
    /// A writer over fresh storage with room for exactly `cap` elements and
    /// nothing published. A capacity of zero is allowed.
    pub fn with_capacity(cap: usize) -> (w: Self)
        ensures
            w.wf(),
            w.model().elems == Seq::<T>::empty(),
            w.model().cap == cap as nat,
    {
        let raw = CVecRaw::with_capacity(cap);
        writer_new(raw)
    }

    /// The size of the allocation.
    pub fn capacity(&self) -> (r: usize)
        requires
            self.wf(),
        ensures
            r == self.model().cap,
    {
        read_cap(self)
    }

    /// The number of published elements.
    pub fn len(&self) -> (r: usize)
        requires
            self.wf(),
        ensures
            r == self.model().elems.len(),
    {
        read_len(self)
    }

    /// Appends `value` when a slot is free or the allocation can grow in
    /// place, and publishes the new length; hands `value` back untouched
    /// otherwise, with length and capacity unchanged. Published elements
    /// stay where they are, and every view keeps watching this storage.
    pub fn push(&mut self, value: T) -> (r: Result<(), T>)
        requires
            old(self).wf(),
        ensures
            final(self).wf(),
            final(self).storage() == old(self).storage(),
            old(self).model().can_push() ==> r is Ok && final(self).model() == old(
                self,
            ).model().pushed(value),
            !old(self).model().can_push() ==> r is Err && final(self).model() == old(self).model(),
            r matches Err(v) ==> v == value,
            old(self).model().elems.is_prefix_of(final(self).model().elems),
    {
        proof {
            old(self).lemma_wf_model();
        }
        let spare = CVecRaw::with_capacity(0);
        let mut raw = cell_swap(self, spare);
        let r = raw.push(value);
        let length = raw.len();
        let cap = raw.capacity();
        let _spare = cell_swap(self, raw);
        counters_refresh(self, length, cap);
        r
    }

    /// Grows the capacity in place so that at least `additional` more
    /// elements fit, without publishing anything; reports whether it did.
    /// Failure changes nothing, and success moves no element.
    pub fn try_reserve(&mut self, additional: usize) -> (r: bool)
        requires
            old(self).wf(),
        ensures
            final(self).wf(),
            final(self).storage() == old(self).storage(),
            r == old(self).model().can_reserve(additional as nat),
            r ==> final(self).model() == old(self).model().reserved(additional as nat),
            !r ==> final(self).model() == old(self).model(),
            final(self).model().elems == old(self).model().elems,
    {
        proof {
            old(self).lemma_wf_model();
        }
        let spare = CVecRaw::with_capacity(0);
        let mut raw = cell_swap(self, spare);
        let r = raw.try_reserve(additional);
        let length = raw.len();
        let cap = raw.capacity();
        let _spare = cell_swap(self, raw);
        counters_refresh(self, length, cap);
        r
    }

    /// Releases the excess allocation: capacity comes down to the published
    /// length. Never fails, publishes nothing and moves no element.
    pub fn shrink_to_fit(&mut self)
        requires
            old(self).wf(),
        ensures
            final(self).wf(),
            final(self).storage() == old(self).storage(),
            final(self).model() == old(self).model().shrunk(),
            final(self).model().elems == old(self).model().elems,
    {
        proof {
            old(self).lemma_wf_model();
        }
        let spare = CVecRaw::with_capacity(0);
        let mut raw = cell_swap(self, spare);
        raw.shrink_to_fit();
        let length = raw.len();
        let cap = raw.capacity();
        let _spare = cell_swap(self, raw);
        counters_refresh(self, length, cap);
    }

    /// A new read-only view over the same storage. It starts out seeing
    /// everything published so far and keeps seeing whatever is published
    /// later.
    pub fn view(&self) -> (v: CVecView<T>)
        requires
            self.wf(),
        ensures
            self.shares_storage(&v),
            v.base() == self.model().elems,
    {
        view_new(self)
    }
}

impl<T> CVecView<T> {
    /// The number of elements published at the moment of the call: never
    /// fewer than this view last observed. The view records the observation,
    /// so lengths read through one view never decrease.
    pub fn len(&mut self) -> (r: usize)
        ensures
            old(self).base().len() <= r,
            final(self).base().len() == r,
            old(self).base().is_prefix_of(final(self).base()),
            final(self).storage() == old(self).storage(),
    {
        cell_view_len(self)
    }

    /// The published length, read while also holding the writer of this
    /// storage: exactly the writer's length.
    pub fn len_with(&mut self, w: &CVec<T>) -> (r: usize)
        requires
            w.wf(),
            w.shares_storage(old(self)),
        ensures
            r == w.model().elems.len(),
            final(self).base() == w.model().elems,
            final(self).storage() == old(self).storage(),
    {
        cell_len_exact(w, self)
    }
}

impl<T: Copy> CVecView<T> {
    /// The published elements at the moment of the call: everything this
    /// view last observed is there, in order, possibly followed by elements
    /// published since. The view records the observation, so slices read
    /// through one view extend each other.
    pub fn as_slice(&mut self) -> (r: Vec<T>)
        ensures
            old(self).base().is_prefix_of(r@),
            final(self).base() == r@,
            final(self).storage() == old(self).storage(),
    {
        cell_view_elems(self)
    }

    /// The published elements, read while also holding the writer of this
    /// storage: exactly the sequence the writer has pushed, in push order.
    pub fn as_slice_with(&mut self, w: &CVec<T>) -> (r: Vec<T>)
        requires
            w.wf(),
            w.shares_storage(old(self)),
        ensures
            r@ == w.model().elems,
            final(self).base() == w.model().elems,
            final(self).storage() == old(self).storage(),
    {
        cell_elems_exact(w, self)
    }
}

impl<T> Clone for CVecView<T> {
    /// Another view of the same storage, with the same observations so far.
    fn clone(&self) -> (r: Self)
        ensures
            r.same_storage(self),
            r.base() == self.base(),
    {
        view_dup(self)
    }
}

} // verus!
