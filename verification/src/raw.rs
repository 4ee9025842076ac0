//! The storage core: owns the published elements and tracks the size of the
//! allocation. Growth is in place or not at all: the capacity bound rises
//! only when the modeled allocator accepts an extension of the existing
//! allocation, and a refused extension leaves the state untouched, so the
//! published prefix is never relocated out from under a view.

use crate::model::Model;
use vstd::prelude::*;

verus! {

/// The sequential storage object behind a writer handle and its views: the
/// published elements and the capacity of the allocation.
pub struct CVecRaw<T> {
    pub(crate) buf: Vec<T>,
    pub(crate) cap: usize,
}

impl<T> View for CVecRaw<T> {
    type V = Model<T>;

    closed spec fn view(&self) -> Model<T> {
        Model { elems: self.buf@, cap: self.cap as nat }
    }
}

impl<T> CVecRaw<T> {
    /// Fresh storage with room for exactly `cap` elements and nothing
    /// published.
    pub fn with_capacity(cap: usize) -> (r: Self)
        ensures
            r@.elems == Seq::<T>::empty(),
            r@.cap == cap as nat,
            r@.wf(),
    {
        CVecRaw { buf: Vec::with_capacity(cap), cap }
    }

    /// The number of published elements.
    pub fn len(&self) -> (r: usize)
        ensures
            r == self@.elems.len(),
    {
        self.buf.len()
    }

    /// The size of the allocation.
    pub fn capacity(&self) -> (r: usize)
        ensures
            r == self@.cap,
    {
        self.cap
    }

    /// Doubles the capacity when the allocation can be extended in place:
    /// it exists and the doubled size fits in a machine word. Reports
    /// failure otherwise, leaving the state untouched.
    fn grow_double(&mut self) -> (r: bool)
        requires
            old(self)@.wf(),
        ensures
            r == old(self)@.can_grow(),
            r ==> final(self)@ == (Model { elems: old(self)@.elems, cap: 2 * old(self)@.cap }),
            !r ==> final(self)@ == old(self)@,
            final(self)@.wf(),
    {
        if self.cap == 0 {
            return false;
        }
        if self.cap <= usize::MAX - self.cap {
            self.cap = self.cap + self.cap;
            true
        } else {
            false
        }
    }

    /// Appends `value` when a slot is free or the allocation can grow in
    /// place; hands `value` back otherwise, with nothing changed. Either
    /// way, everything already published stays exactly where it was.
    pub fn push(&mut self, value: T) -> (r: Result<(), T>)
        requires
            old(self)@.wf(),
        ensures
            final(self)@.wf(),
            old(self)@.can_push() ==> r is Ok && final(self)@ == old(self)@.pushed(value),
            !old(self)@.can_push() ==> r is Err && final(self)@ == old(self)@,
            r matches Err(v) ==> v == value,
            old(self)@.elems.is_prefix_of(final(self)@.elems),
    {
        if self.buf.len() == self.cap {
            if !self.grow_double() {
                return Err(value);
            }
        }
        self.buf.push(value);
        Ok(())
    }

    /// Grows the capacity in place so that at least `additional` more
    /// elements fit, when the allocation allows it; reports whether it did.
    /// The published elements are untouched either way.
    pub fn try_reserve(&mut self, additional: usize) -> (r: bool)
        requires
            old(self)@.wf(),
        ensures
            final(self)@.wf(),
            r == old(self)@.can_reserve(additional as nat),
            r ==> final(self)@ == old(self)@.reserved(additional as nat),
            !r ==> final(self)@ == old(self)@,
    {
        let len = self.buf.len();
        if additional <= self.cap - len {
            return true;
        }
        if self.cap == 0 {
            return false;
        }
        if additional <= usize::MAX - len {
            self.cap = len + additional;
            true
        } else {
            false
        }
    }

    /// Releases the excess allocation: capacity comes down to the published
    /// length. Never fails and never moves an element.
    pub fn shrink_to_fit(&mut self)
        requires
            old(self)@.wf(),
        ensures
            final(self)@ == old(self)@.shrunk(),
            final(self)@.wf(),
    {
        self.cap = self.buf.len();
    }
}

} // verus!
