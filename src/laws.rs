use vstd::prelude::*;

use crate::cache::{in_flight, updated, AssetCache};
use crate::error::BoxedErr;
use crate::future::{completed, peeked, AssetFuture, FutureState, SharedCells};
use crate::identity::{exts_view, AssetSpec, SpecKey};
use crate::load::requested;

verus! {

/// After `cache` registers a future for a spec, every `retrieve` of an equal
/// spec hands out that same future, in the same cells and cell, so all of
/// them observe one computation.
pub proof fn lemma_retrieve_after_cache<A>(
    before: AssetCache<A>,
    after: AssetCache<A>,
    cells: SharedCells<A>,
    spec: AssetSpec,
    f: AssetFuture<A>,
    probe: AssetSpec,
    r1: Option<AssetFuture<A>>,
    r2: Option<AssetFuture<A>>,
)
    requires
        after@ == before@.insert(spec@, f.handle()),
        f.is_in(&cells),
        probe@ == spec@,
        call_ensures(AssetCache::<A>::retrieve, (&after, &probe), r1),
        call_ensures(AssetCache::<A>::retrieve, (&after, &probe), r2),
    ensures
        r1 matches Some(h1) && h1.handle() == f.handle() && h1.is_in(&cells),
        r2 matches Some(h2) && h2.handle() == f.handle() && h2.is_in(&cells),
{
}

/// Two requests for one spec, the second made after the first, get the same
/// future, and only the first starts a construction.
pub proof fn lemma_requests_converge(
    m: Map<SpecKey, (int, usize)>,
    k: SpecKey,
    fresh1: (int, usize),
    fresh2: (int, usize),
)
    ensures
        ({
            let (m1, f1, b1) = requested(m, k, fresh1);
            let (m2, f2, b2) = requested(m1, k, fresh2);
            &&& f2 == f1
            &&& !b2
            &&& m2 == m1
            &&& b1 == !m.contains_key(k)
        }),
{
}

/// A clone refers to the same cells and cell as the future it was taken from:
/// once the computation of either is settled, both observe the same settled
/// state.
pub proof fn lemma_clones_converge<A>(
    cells: SharedCells<A>,
    first: AssetFuture<A>,
    clone: AssetFuture<A>,
    outcome: Result<A, BoxedErr>,
)
    requires
        first.is_in(&cells),
        call_ensures(AssetFuture::<A>::clone, (&first,), clone),
    ensures
        clone.is_in(&cells),
        completed(cells@, first@ as int, outcome)[clone@ as int] == completed(
            cells@,
            first@ as int,
            outcome,
        )[first@ as int],
        !(completed(cells@, first@ as int, outcome)[clone@ as int] is Pending),
{
}

/// Peeking only reads the state: any number of peeks at one state report the
/// same thing, and at a pending state every one of them reports nothing.
pub proof fn lemma_peeks_agree<A>(
    state: FutureState<A>,
    first: Option<Result<&A, &BoxedErr>>,
    later: Option<Result<&A, &BoxedErr>>,
)
    requires
        peeked(state, first),
        peeked(state, later),
    ensures
        first == later,
        state is Pending ==> first is None,
{
}

/// Once the computation of a cached spec has failed, the failure stays: no
/// later outcome changes it, caching or reloading other specs keeps it, and a
/// new request hands the failed future out again without starting a new
/// construction. Only clearing or updating the spec itself removes it.
pub proof fn lemma_failure_is_permanent<A>(
    m: Map<SpecKey, (int, usize)>,
    cells: Seq<FutureState<A>>,
    k: SpecKey,
    other: SpecKey,
    h: (int, usize),
    fresh: (int, usize),
    settled: int,
    outcome: Result<A, BoxedErr>,
)
    requires
        m.contains_key(k),
        m[k].1 < cells.len(),
        cells[m[k].1 as int] is Failed,
        other != k,
        0 <= settled < cells.len(),
    ensures
        completed(cells, settled, outcome)[m[k].1 as int] == cells[m[k].1 as int],
        m.insert(other, h)[k] == m[k],
        updated(m, other, h)[k] == m[k],
        requested(m, k, fresh) == (m, m[k], false),
        !in_flight(m, cells).contains_key(k),
        updated(m, k, h)[k] == h,
{
}

/// `==` on specs holds exactly when their extensions, names and stores are
/// equal; changing any one of them makes the specs unequal.
pub proof fn lemma_spec_equality(a: AssetSpec, b: AssetSpec, r: bool)
    requires
        call_ensures(<AssetSpec as PartialEq>::eq, (&a, &b), r),
    ensures
        r <==> (exts_view(a.exts) == exts_view(b.exts) && a.name@ == b.name@ && a.store
            == b.store),
{
}

} // verus!
