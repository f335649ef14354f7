use vstd::prelude::*;

use crate::future::{AssetFuture, FutureState, SharedCells};
use crate::identity::{AssetSpec, SpecKey};

verus! {

/// Whether the computation in `slot` of `cells` has not resolved yet.
pub open spec fn pending_in<A>(cells: Seq<FutureState<A>>, slot: usize) -> bool {
    slot < cells.len() && cells[slot as int] is Pending
}

/// What `clear` keeps of a cache: the entries whose load is still in flight.
pub open spec fn in_flight<A>(m: Map<SpecKey, (int, usize)>, cells: Seq<FutureState<A>>) -> Map<
    SpecKey,
    (int, usize),
> {
    Map::new(|k: SpecKey| m.contains_key(k) && pending_in(cells, m[k].1), |k: SpecKey| m[k])
}

/// What `update` makes of a cache: a reloaded future replaces the entry of a
/// spec that is cached, and nothing else changes.
pub open spec fn updated(m: Map<SpecKey, (int, usize)>, k: SpecKey, h: (int, usize)) -> Map<
    SpecKey,
    (int, usize),
> {
    if m.contains_key(k) {
        m.insert(k, h)
    } else {
        m
    }
}

/// The futures of one asset type, keyed by their spec: at most one entry for
/// each spec, so that requests for one spec converge on one computation.
pub struct AssetCache<A> {
    entries: Vec<(AssetSpec, AssetFuture<A>)>,
    keys: Ghost<Map<SpecKey, (int, usize)>>,
}

impl<A> View for AssetCache<A> {
    type V = Map<SpecKey, (int, usize)>;

    /// Each cached spec, with the identity of its future: the cells it
    /// belongs to and its cell there.
    closed spec fn view(&self) -> Map<SpecKey, (int, usize)> {
        self.keys@
    }
}

impl<A> AssetCache<A> {
    /// The entries agree with the map, and no spec has two of them.
    pub closed spec fn wf(&self) -> bool {
        &&& forall|i: int|
            0 <= i < self.entries@.len() ==> #[trigger] self.keys@.contains_key(
                self.entries@[i].0@,
            ) && self.keys@[self.entries@[i].0@] == self.entries@[i].1.handle()
        &&& forall|k: SpecKey| #[trigger]
            self.keys@.contains_key(k) ==> exists|i: int|
                0 <= i < self.entries@.len() && #[trigger] self.entries@[i].0@ == k
        &&& forall|i: int, j: int|
            0 <= i < self.entries@.len() && 0 <= j < self.entries@.len() && i != j
                ==> #[trigger] self.entries@[i].0@ != #[trigger] self.entries@[j].0@
    }

    /// Whether every cached future refers to a computation of `cells`.
    pub open spec fn belongs_to(&self, cells: &SharedCells<A>) -> bool {
        forall|k: SpecKey| #[trigger]
            self@.contains_key(k) ==> self@[k].0 == cells.id() && self@[k].1 < cells@.len()
    }

    /// An empty cache.
    pub fn new() -> (r: Self)
        ensures
            r.wf(),
            r@ == Map::<SpecKey, (int, usize)>::empty(),
    {
        AssetCache { entries: Vec::new(), keys: Ghost(Map::empty()) }
    }

    /// The position of the entry for `spec`, if there is one.
    fn find(&self, spec: &AssetSpec) -> (r: Option<usize>)
        requires
            self.wf(),
        ensures
            match r {
                Some(i) => i < self.entries@.len() && self.entries@[i as int].0@ == spec@,
                None => !self@.contains_key(spec@),
            },
    {
        let mut i: usize = 0;
        while i < self.entries.len()
            invariant
                self.wf(),
                i <= self.entries@.len(),
                forall|j: int| 0 <= j < i ==> self.entries@[j].0@ != spec@,
            decreases self.entries@.len() - i,
        {
            if self.entries[i].0 == *spec {
                return Some(i);
            }
            i = i + 1;
        }
        None
    }

    /// Notifies about an asset load: `asset` becomes the future of `spec`,
    /// replacing any earlier one.
    pub fn cache(&mut self, spec: AssetSpec, asset: AssetFuture<A>)
        requires
            old(self).wf(),
        ensures
            final(self).wf(),
            final(self)@ == old(self)@.insert(spec@, asset.handle()),
    {
        let ghost k = spec@;
        let ghost h = asset.handle();
        let ghost mut pos: int = 0;
        match self.find(&spec) {
            Some(i) => {
                self.entries.set(i, (spec, asset));
                proof {
                    pos = i as int;
                }
            },
            None => {
                self.entries.push((spec, asset));
                proof {
                    pos = self.entries@.len() - 1;
                }
            },
        }
        assert(self.entries@[pos].0@ == k);
        self.keys = Ghost(self.keys@.insert(k, h));
        assert forall|k2: SpecKey| #[trigger] self.keys@.contains_key(k2) implies exists|i: int|
            0 <= i < self.entries@.len() && #[trigger] self.entries@[i].0@ == k2 by {
            if k2 != k {
                let i = choose|i: int|
                    0 <= i < old(self).entries@.len() && #[trigger] old(self).entries@[i].0@ == k2;
                assert(self.entries@[i].0@ == k2);
            } else {
                assert(self.entries@[pos].0@ == k2);
            }
        }
    }

    /// The cached future of `spec`, if there is one. Never starts a load.
    pub fn retrieve(&self, spec: &AssetSpec) -> (r: Option<AssetFuture<A>>)
        requires
            self.wf(),
        ensures
            match r {
                Some(f) => self@.contains_key(spec@) && f.handle() == self@[spec@],
                None => !self@.contains_key(spec@),
            },
    {
        match self.find(spec) {
            Some(i) => {
                assert(self.keys@.contains_key(self.entries@[i as int].0@));
                Some(self.entries[i].1.clone())
            },
            None => None,
        }
    }

    /// Swaps the future of a cached spec for a reloaded one. Handles taken
    /// earlier keep observing the old computation.
    pub fn update(&mut self, spec: &AssetSpec, asset: AssetFuture<A>)
        requires
            old(self).wf(),
        ensures
            final(self).wf(),
            final(self)@ == updated(old(self)@, spec@, asset.handle()),
    {
        if self.find(spec).is_some() {
            self.cache(spec.clone(), asset);
        }
    }

    /// Drops the entries whose load has resolved, successfully or not, and
    /// keeps those still in flight, so that concurrent requests still share
    /// them. Holders of dropped futures keep observing them.
    pub fn clear(&mut self, cells: &SharedCells<A>)
        requires
            old(self).wf(),
        ensures
            final(self).wf(),
            final(self)@ == in_flight(old(self)@, cells@),
    {
        let ghost target = in_flight(self@, cells@);
        let mut kept: Vec<(AssetSpec, AssetFuture<A>)> = Vec::new();
        let ghost mut m: Map<SpecKey, (int, usize)> = Map::empty();
        let mut i: usize = 0;
        while i < self.entries.len()
            invariant
                self.wf(),
                self@ == old(self)@,
                target == in_flight(self@, cells@),
                i <= self.entries@.len(),
                m =~= Map::new(
                    |k: SpecKey|
                        target.contains_key(k) && exists|j: int|
                            0 <= j < i && #[trigger] self.entries@[j].0@ == k,
                    |k: SpecKey| target[k],
                ),
                forall|a: int|
                    0 <= a < kept@.len() ==> #[trigger] m.contains_key(kept@[a].0@) && m[kept@[a].0@]
                        == kept@[a].1.handle(),
                forall|k: SpecKey| #[trigger]
                    m.contains_key(k) ==> exists|a: int|
                        0 <= a < kept@.len() && #[trigger] kept@[a].0@ == k,
                forall|a: int, b: int|
                    0 <= a < kept@.len() && 0 <= b < kept@.len() && a != b
                        ==> #[trigger] kept@[a].0@ != #[trigger] kept@[b].0@,
                forall|a: int|
                    0 <= a < kept@.len() ==> exists|j: int|
                        0 <= j < i && #[trigger] self.entries@[j].0@ == #[trigger] kept@[a].0@,
            decreases self.entries@.len() - i,
        {
            let slot = self.entries[i].1.slot();
            let ghost kept0 = kept@;
            let ghost i0 = i as int;
            if cells.is_pending(slot) {
                let ghost k = self.entries@[i as int].0@;
                assert(self.keys@.contains_key(k));
                assert forall|a: int| 0 <= a < kept@.len() implies kept@[a].0@ != k by {
                    let j = choose|j: int|
                        0 <= j < i && #[trigger] self.entries@[j].0@ == kept@[a].0@;
                    assert(j != i);
                }
                let entry = (self.entries[i].0.clone(), self.entries[i].1.clone());
                let ghost before = kept@;
                let ghost m0 = m;
                kept.push(entry);
                proof {
                    m = m.insert(k, self.entries@[i as int].1.handle());
                    let last = kept@.len() - 1;
                    assert(kept@[last].0@ == k);
                    assert forall|k2: SpecKey| #[trigger] m.contains_key(k2) implies exists|a: int|
                        0 <= a < kept@.len() && #[trigger] kept@[a].0@ == k2 by {
                        if k2 == k {
                            assert(kept@[last].0@ == k2);
                        } else {
                            assert(m0.contains_key(k2));
                            let a = choose|a: int|
                                0 <= a < before.len() && #[trigger] before[a].0@ == k2;
                            assert(kept@[a].0@ == k2);
                        }
                    }
                    assert(self.entries@[i as int].0@ == kept@[last].0@);
                }
            }
            i = i + 1;
            assert forall|a: int| 0 <= a < kept@.len() implies exists|j: int|
                0 <= j < i && #[trigger] self.entries@[j].0@ == #[trigger] kept@[a].0@ by {
                if a < kept0.len() {
                    let j = choose|j: int|
                        0 <= j < i0 && #[trigger] self.entries@[j].0@ == #[trigger] kept0[a].0@;
                    assert(self.entries@[j].0@ == kept@[a].0@);
                } else {
                    assert(self.entries@[i0].0@ == kept@[a].0@);
                }
            }
        }
        proof {
            assert forall|k: SpecKey| target.contains_key(k) implies exists|j: int|
                0 <= j < i && #[trigger] self.entries@[j].0@ == k by {
                assert(self.keys@.contains_key(k));
            }
            assert(m =~= target);
        }
        let ghost kg = kept@;
        self.entries = kept;
        self.keys = Ghost(m);
        assert(self.entries@ == kg && self.keys@ == m);
        assert forall|k: SpecKey| #[trigger] self.keys@.contains_key(k) implies exists|a: int|
            0 <= a < self.entries@.len() && #[trigger] self.entries@[a].0@ == k by {
            let a = choose|a: int| 0 <= a < kg.len() && #[trigger] kg[a].0@ == k;
            assert(self.entries@[a].0@ == k);
        }
    }

    /// Drops every entry.
    pub fn clear_all(&mut self)
        ensures
            final(self).wf(),
            final(self)@ == Map::<SpecKey, (int, usize)>::empty(),
    {
        self.entries = Vec::new();
        self.keys = Ghost(Map::empty());
    }
}

} // verus!
