//! The shared cell behind a writer handle and its views, the handles' own
//! state, and the trusted window onto the cell.
//!
//! The two handle types live here with all their fields private, so nothing
//! outside this module can build a handle or touch its ghost state: every
//! handle in existence went through the constructors below, which record the
//! cell's contents in the writer's mirror and the view's base. The trusted
//! contracts in this module speak only of such handles, and the discipline
//! they rely on is all in this one file: one cell per writer, stores only
//! through `cell_swap` on that writer, reads only through the borrowing
//! wrappers, no borrow guard outliving a statement.

use crate::model::Model;
use crate::raw::CVecRaw;
use core::cell::RefCell;
use std::rc::Rc;
use vstd::prelude::*;

verus! {

#[verifier::external_type_specification]
#[verifier::external_body]
#[verifier::reject_recursive_types(T)]
pub struct ExRefCell<T: ?Sized>(RefCell<T>);

/// The writer handle: the sole holder of the right to append elements and to
/// change capacity. It is move-only and cannot be cloned, so each storage
/// object has one writer by construction; `view` hands out read-only
/// companions that share the storage.
#[verifier::reject_recursive_types(T)]
pub struct CVec<T> {
    cell: Rc<RefCell<CVecRaw<T>>>,
    length: usize,
    cap: usize,
    mirror: Ghost<Model<T>>,
}

/// A read-only view of the shared storage: it observes the length and the
/// published elements, never mutates them, and can be cloned cheaply. Its
/// recorded base is the element sequence at the last observation (at first,
/// at creation); everything a view returns extends it.
#[verifier::reject_recursive_types(T)]
pub struct CVecView<T> {
    cell: Rc<RefCell<CVecRaw<T>>>,
    base: Ghost<Seq<T>>,
}

impl<T> CVec<T> {
    /// The model of the shared storage: what the writer has published and
    /// the capacity it has negotiated.
    pub closed spec fn model(&self) -> Model<T> {
        self.mirror@
    }

    /// The shared cell this writer owns, as a spec value; two handles over
    /// one cell agree on it.
    pub closed spec fn storage(&self) -> Rc<RefCell<CVecRaw<T>>> {
        self.cell
    }

    /// What the writer knows of itself: its cached length and capacity agree
    /// with the model of the shared storage, and the model is well formed.
    /// Every constructor establishes it and every method keeps it.
    pub closed spec fn wf(&self) -> bool {
        self.length == self.model().elems.len() && self.cap == self.model().cap
            && self.model().wf()
    }

    /// Whether `v` is a view over this writer's storage: both handles reach
    /// the one shared cell.
    pub open spec fn shares_storage(&self, v: &CVecView<T>) -> bool {
        self.storage() == v.storage()
    }

    /// A well-formed writer has a well-formed model: the published length
    /// never exceeds the capacity, which fits in a machine word.
    pub proof fn lemma_wf_model(&self)
        requires
            self.wf(),
        ensures
            self.model().wf(),
    {
    }
}

impl<T> CVecView<T> {
    /// The elements this view last observed — at creation (for a clone: the
    /// observations of the view it was cloned from), then at each read
    /// through it. Everything the view returns extends them.
    pub closed spec fn base(&self) -> Seq<T> {
        self.base@
    }

    /// The shared cell this view reads, as a spec value.
    pub closed spec fn storage(&self) -> Rc<RefCell<CVecRaw<T>>> {
        self.cell
    }

    /// Whether `other` is a view over the same storage: both handles reach
    /// the one shared cell.
    pub open spec fn same_storage(&self, other: &CVecView<T>) -> bool {
        self.storage() == other.storage()
    }
}

/// Relies on `RefCell::new`: makes the cell that a writer handle and its
/// views share.
#[verifier::external_body]
fn cell_new<T>(raw: CVecRaw<T>) -> RefCell<CVecRaw<T>> {
    RefCell::new(raw)
}

/// Relies on `Rc::clone`: hands out another handle to the same shared cell.
#[verifier::external_body]
fn cell_share<T>(cell: &Rc<RefCell<CVecRaw<T>>>) -> (r: Rc<RefCell<CVecRaw<T>>>)
    ensures
        r == *cell,
{
    cell.clone()
}

/// A writer over a fresh cell holding `raw`; its mirror records exactly the
/// cell's contents.
pub(crate) fn writer_new<T>(raw: CVecRaw<T>) -> (w: CVec<T>)
    requires
        raw@.wf(),
    ensures
        w.wf(),
        w.model() == raw@,
{
    let length = raw.len();
    let cap = raw.capacity();
    let ghost m = raw@;
    CVec { cell: Rc::new(cell_new(raw)), length, cap, mirror: Ghost(m) }
}

/// Restores the writer's cached length and capacity after its model moved.
pub(crate) fn counters_refresh<T>(w: &mut CVec<T>, length: usize, cap: usize)
    requires
        old(w).model().wf(),
        length == old(w).model().elems.len(),
        cap == old(w).model().cap,
    ensures
        final(w).wf(),
        final(w).model() == old(w).model(),
        final(w).storage() == old(w).storage(),
{
    w.length = length;
    w.cap = cap;
}

/// The writer's cached published length.
pub(crate) fn read_len<T>(w: &CVec<T>) -> (r: usize)
    requires
        w.wf(),
    ensures
        r == w.model().elems.len(),
{
    w.length
}

/// The writer's cached capacity.
pub(crate) fn read_cap<T>(w: &CVec<T>) -> (r: usize)
    requires
        w.wf(),
    ensures
        r == w.model().cap,
{
    w.cap
}

/// A new view over the writer's cell, its base set to what the writer has
/// published.
pub(crate) fn view_new<T>(w: &CVec<T>) -> (v: CVecView<T>)
    ensures
        w.shares_storage(&v),
        v.base() == w.model().elems,
{
    CVecView { cell: cell_share(&w.cell), base: Ghost(w.model().elems) }
}

/// Another view over the same cell, with the same recorded base.
pub(crate) fn view_dup<T>(v: &CVecView<T>) -> (r: CVecView<T>)
    ensures
        r.same_storage(v),
        r.base() == v.base(),
{
    CVecView { cell: cell_share(&v.cell), base: Ghost(v.base()) }
}

/// Relies on `RefCell::replace`: stores `raw` in the shared cell and hands
/// back the previous contents. Only the writer handle ever stores, and every
/// handle records the contents it was built over, so the previous contents
/// are the state the writer's mirror records, and the mirror moves to what
/// was stored.
#[verifier::external_body]
pub(crate) fn cell_swap<T>(w: &mut CVec<T>, raw: CVecRaw<T>) -> (r: CVecRaw<T>)
    ensures
        r@ == old(w).model(),
        final(w).model() == raw@,
        final(w).storage() == old(w).storage(),
{
    w.cell.replace(raw)
}

/// Relies on `RefCell::borrow`: reads the shared cell's length without
/// changing the cell. The cell's element sequence only ever grows by
/// appending, so it extends whatever this view last observed; the view's
/// base advances to it.
#[verifier::external_body]
pub(crate) fn cell_view_len<T>(v: &mut CVecView<T>) -> (r: usize)
    ensures
        old(v).base().len() <= r,
        final(v).base().len() == r,
        old(v).base().is_prefix_of(final(v).base()),
        final(v).storage() == old(v).storage(),
{
    v.cell.borrow().buf.len()
}

/// Relies on `RefCell::borrow` and `Vec::clone`: copies the published
/// elements out of the shared cell. With `T: Copy`, std clones the vector by
/// copying the elements themselves, so the result is the cell's element
/// sequence: it extends whatever this view last observed, and the view's
/// base advances to it.
#[verifier::external_body]
pub(crate) fn cell_view_elems<T: Copy>(v: &mut CVecView<T>) -> (r: Vec<T>)
    ensures
        old(v).base().is_prefix_of(r@),
        final(v).base() == r@,
        final(v).storage() == old(v).storage(),
{
    v.cell.borrow().buf.clone()
}

/// Relies on `RefCell::borrow`: reads the cell's length while the writer of
/// the same cell is at hand. The cell is only ever written through that
/// writer, whose mirror records its contents, so what is read is exactly the
/// mirror's length.
#[verifier::external_body]
pub(crate) fn cell_len_exact<T>(w: &CVec<T>, v: &mut CVecView<T>) -> (r: usize)
    requires
        w.wf(),
        w.shares_storage(old(v)),
    ensures
        r == w.model().elems.len(),
        final(v).base() == w.model().elems,
        final(v).storage() == old(v).storage(),
{
    v.cell.borrow().buf.len()
}

/// Relies on `RefCell::borrow` and `Vec::clone`: copies the published
/// elements while the writer of the same cell is at hand. The cell is only
/// ever written through that writer, whose mirror records its contents, and
/// with `T: Copy` the clone copies the elements themselves, so the result is
/// exactly the mirror's element sequence.
#[verifier::external_body]
pub(crate) fn cell_elems_exact<T: Copy>(w: &CVec<T>, v: &mut CVecView<T>) -> (r: Vec<T>)
    requires
        w.wf(),
        w.shares_storage(old(v)),
    ensures
        r@ == w.model().elems,
        final(v).base() == w.model().elems,
        final(v).storage() == old(v).storage(),
{
    v.cell.borrow().buf.clone()
}

} // verus!
