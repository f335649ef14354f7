use rayon::ThreadPool;
use vstd::prelude::*;

use crate::cache::AssetCache;
use crate::error::{tag_failure, tagged, BoxedErr, ErrorKind};
use crate::future::{completed, initial_state, AssetFuture, FutureState, SharedCells};
use crate::identity::{AssetSpec, SpecKey};
use crate::traits::{Context, Format};

verus! {

/// The outcome of a request for spec `k` on a cache `m`, when a new future
/// would be `fresh` (its cells and its cell): the cache after it, the future
/// handed out, and whether a construction has to be started.
pub open spec fn requested(m: Map<SpecKey, (int, usize)>, k: SpecKey, fresh: (int, usize)) -> (
    Map<SpecKey, (int, usize)>,
    (int, usize),
    bool,
) {
    if m.contains_key(k) {
        (m, m[k], false)
    } else {
        (m.insert(k, fresh), fresh, true)
    }
}

/// Asks for the future of `spec`: the cached one if there is one, else a new
/// pending future, which is cached at once so that later requests share it.
/// The flag says whether the caller has to start the construction.
pub fn request<A>(cache: &mut AssetCache<A>, cells: &mut SharedCells<A>, spec: &AssetSpec) -> (r: (
    AssetFuture<A>,
    bool,
))
    requires
        old(cache).wf(),
        old(cache).belongs_to(old(cells)),
    ensures
        final(cache).wf(),
        final(cache).belongs_to(final(cells)),
        (final(cache)@, r.0.handle(), r.1) == requested(
            old(cache)@,
            spec@,
            (old(cells).id(), old(cells)@.len() as usize),
        ),
        r.0.is_in(final(cells)),
        final(cells)@ == if r.1 {
            old(cells)@.push(FutureState::Pending)
        } else {
            old(cells)@
        },
        final(cells).id() == old(cells).id(),
{
    match cache.retrieve(spec) {
        Some(f) => (f, false),
        None => {
            let f = AssetFuture::from_future(cells, None);
            cache.cache(spec.clone(), f.clone());
            (f, true)
        },
    }
}

/// Parses `bytes` with `format`; a failure becomes a format error.
pub fn parse_with<F: Format>(format: &F, bytes: Vec<u8>, pool: &ThreadPool) -> (r: Result<
    F::Data,
    BoxedErr,
>)
    ensures
        exists|parsed: Result<F::Data, String>|
            call_ensures(F::parse, (format, bytes, pool), parsed) && r == tagged(
                parsed,
                ErrorKind::Format,
            ),
{
    let parsed = format.parse(bytes, pool);
    tag_failure(parsed, ErrorKind::Format)
}

/// Runs the construction of the asset behind `fut` from `data` and settles
/// its computation with the result; a failure becomes a construction error.
/// Returns whether this settled it.
pub fn construct<C: Context>(
    ctx: &C,
    fut: &AssetFuture<C::Asset>,
    cells: &mut SharedCells<C::Asset>,
    data: C::Data,
    pool: &ThreadPool,
) -> (r: bool)
    requires
        fut.is_in(old(cells)),
    ensures
        exists|created: Result<C::Asset, String>|
            call_ensures(C::create_asset, (ctx, data, pool), created) && final(cells)@
                == completed(old(cells)@, fut@ as int, tagged(created, ErrorKind::Construction)),
        final(cells).id() == old(cells).id(),
        r == old(cells)@[fut@ as int] is Pending,
{
    let created = ctx.create_asset(data, pool);
    fut.complete(cells, tag_failure(created, ErrorKind::Construction))
}

/// Loads the asset of `spec` from `bytes`: a cached future is handed out as it
/// is; otherwise a new one is cached, the bytes are parsed and the asset is
/// constructed, and the new future is settled with the first failure or the
/// asset.
pub fn load<F: Format, C: Context<Data = F::Data>>(
    format: &F,
    ctx: &C,
    cache: &mut AssetCache<C::Asset>,
    cells: &mut SharedCells<C::Asset>,
    spec: &AssetSpec,
    bytes: Vec<u8>,
    pool: &ThreadPool,
) -> (r: AssetFuture<C::Asset>)
    requires
        old(cache).wf(),
        old(cache).belongs_to(old(cells)),
    ensures
        final(cache).wf(),
        final(cache).belongs_to(final(cells)),
        final(cache)@ == requested(
            old(cache)@,
            spec@,
            (old(cells).id(), old(cells)@.len() as usize),
        ).0,
        r.handle() == requested(old(cache)@, spec@, (old(cells).id(), old(cells)@.len() as usize)).1,
        r.is_in(final(cells)),
        old(cache)@.contains_key(spec@) ==> final(cells)@ == old(cells)@,
        !old(cache)@.contains_key(spec@) ==> exists|parsed: Result<F::Data, String>|
            #![trigger call_ensures(F::parse, (format, bytes, pool), parsed)]
            call_ensures(F::parse, (format, bytes, pool), parsed) && match parsed {
                Err(description) => final(cells)@ == old(cells)@.push(
                    FutureState::Failed(BoxedErr { kind: ErrorKind::Format, description }),
                ),
                Ok(data) => exists|created: Result<C::Asset, String>|
                    call_ensures(C::create_asset, (ctx, data, pool), created) && final(cells)@
                        == old(cells)@.push(
                        initial_state(Some(tagged(created, ErrorKind::Construction))),
                    ),
            },
        final(cells).id() == old(cells).id(),
{
    let ghost before = cells@;
    let count = cells.len();
    let (fut, started) = request(cache, cells, spec);
    if started {
        assert(fut@ == count);
        let ghost mid = cells@;
        let parsed = format.parse(bytes, pool);
        match tag_failure(parsed, ErrorKind::Format) {
            Ok(data) => {
                let created = ctx.create_asset(data, pool);
                fut.complete(cells, tag_failure(created, ErrorKind::Construction));
                assert(cells@ =~= before.push(
                    initial_state(Some(tagged(created, ErrorKind::Construction))),
                ));
            },
            Err(e) => {
                fut.complete(cells, Err(e));
                assert(cells@ =~= before.push(FutureState::Failed(e)));
            },
        }
    }
    fut
}

} // verus!
