//! The laws the storage obeys, stated over the model and proved once for
//! every writer and every element type: order preservation, stability of the
//! published prefix under growth, monotonicity of the published length, and
//! preservation of well-formedness.

use crate::model::Model;
use vstd::prelude::*;

verus! {

/// The model after pushing every element of `vs`, in order.
pub open spec fn pushed_all<T>(m: Model<T>, vs: Seq<T>) -> Model<T>
    decreases vs.len(),
{
    if vs.len() == 0 {
        m
    } else {
        pushed_all(m.pushed(vs[0]), vs.drop_first())
    }
}

/// Every push of `vs`, taken in order, is accepted.
pub open spec fn all_pushes_accepted<T>(m: Model<T>, vs: Seq<T>) -> bool
    decreases vs.len(),
{
    vs.len() == 0 || (m.can_push() && all_pushes_accepted(m.pushed(vs[0]), vs.drop_first()))
}

/// Order preservation: a run of accepted pushes appends exactly the pushed
/// values, in push order, behind what was already published, and leaves the
/// storage well formed.
pub proof fn lemma_order_preservation<T>(m: Model<T>, vs: Seq<T>)
    requires
        m.wf(),
        all_pushes_accepted(m, vs),
    ensures
        pushed_all(m, vs).elems == m.elems + vs,
        pushed_all(m, vs).wf(),
    decreases vs.len(),
{
    if vs.len() == 0 {
        assert(pushed_all(m, vs).elems =~= m.elems + vs);
    } else {
        lemma_wf_preserved(m, vs[0], 0);
        lemma_order_preservation(m.pushed(vs[0]), vs.drop_first());
        assert(pushed_all(m, vs).elems =~= m.elems + vs);
    }
}

/// Growth stability: an accepted push leaves every already-published element
/// at its index, places the new value right behind them, and doubles the
/// capacity when the buffer was full.
pub proof fn lemma_growth_stability<T>(m: Model<T>, value: T)
    requires
        m.wf(),
        m.can_push(),
    ensures
        m.pushed(value).elems.subrange(0, m.elems.len() as int) == m.elems,
        m.pushed(value).elems.len() == m.elems.len() + 1,
        m.pushed(value).elems[m.elems.len() as int] == value,
        m.elems.len() == m.cap ==> m.pushed(value).cap == 2 * m.cap,
{
    assert(m.pushed(value).elems.subrange(0, m.elems.len() as int) =~= m.elems);
}

/// Monotonicity: no operation shortens the published prefix — a push
/// lengthens it by one and keeps it as a prefix, and the capacity operations
/// leave it untouched — so the length a view observes never decreases.
pub proof fn lemma_length_monotone<T>(m: Model<T>, value: T, additional: nat)
    ensures
        m.pushed(value).elems.len() == m.elems.len() + 1,
        m.elems.is_prefix_of(m.pushed(value).elems),
        m.reserved(additional).elems == m.elems,
        m.shrunk().elems == m.elems,
{
    assert(m.elems =~= m.pushed(value).elems.subrange(0, m.elems.len() as int));
}

/// Invariant preservation: every accepted operation keeps the storage well
/// formed — the published prefix fits in the allocation, whose size fits in
/// a machine word.
pub proof fn lemma_wf_preserved<T>(m: Model<T>, value: T, additional: nat)
    requires
        m.wf(),
    ensures
        m.can_push() ==> m.pushed(value).wf(),
        m.can_reserve(additional) ==> m.reserved(additional).wf(),
        m.shrunk().wf(),
{
}

} // verus!
