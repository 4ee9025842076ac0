//! The mathematical model of the sequence: the published elements together
//! with the size of the allocation that holds them, and the transitions the
//! writer's operations perform on that pair.

use vstd::prelude::*;

verus! {

/// The state of the shared storage as contracts speak of it: the sequence of
/// published elements and the capacity of the allocation.
#[verifier::ext_equal]
pub ghost struct Model<T> {
    pub elems: Seq<T>,
    pub cap: nat,
}

impl<T> Model<T> {
    /// Well-formedness: the published prefix fits in the allocation and the
    /// allocation size fits in a machine word.
    pub open spec fn wf(self) -> bool {
        self.elems.len() <= self.cap && self.cap <= usize::MAX as nat
    }

    /// The allocation can be doubled in place: it exists, and the doubled
    /// size still fits in a machine word.
    pub open spec fn can_grow(self) -> bool {
        0 < self.cap && 2 * self.cap <= usize::MAX as nat
    }

    /// A push is accepted exactly when a slot is free or the allocation can
    /// be doubled in place.
    pub open spec fn can_push(self) -> bool {
        self.elems.len() < self.cap || self.can_grow()
    }

    /// The state after a successful push: the value is appended, and the
    /// capacity doubles when the buffer was full.
    pub open spec fn pushed(self, value: T) -> Model<T> {
        Model {
            elems: self.elems.push(value),
            cap: if self.elems.len() < self.cap {
                self.cap
            } else {
                2 * self.cap
            },
        }
    }

    /// A reservation of `additional` free slots beyond the published length
    /// is accepted exactly when it already holds, or the allocation exists
    /// and the requested size fits in a machine word.
    pub open spec fn can_reserve(self, additional: nat) -> bool {
        self.elems.len() + additional <= self.cap
            || (0 < self.cap && self.elems.len() + additional <= usize::MAX as nat)
    }

    /// The state after a successful reservation: enough room for `additional`
    /// more elements, nothing published or moved.
    pub open spec fn reserved(self, additional: nat) -> Model<T> {
        if self.elems.len() + additional <= self.cap {
            self
        } else {
            Model { elems: self.elems, cap: self.elems.len() + additional }
        }
    }

    /// The state after releasing the excess allocation: capacity comes down
    /// to the published length.
    pub open spec fn shrunk(self) -> Model<T> {
        Model { elems: self.elems, cap: self.elems.len() }
    }
}

} // verus!
