use std::cell::Cell;
use std::collections::hash_map::DefaultHasher;
use std::hash::{Hash, Hasher};

use amethyst_assets::{
    construct, load, parse_with, request, Asset, AssetCache, AssetFuture, AssetSpec, Async,
    BoxedErr, Context, ErrorKind, Format, SharedAssetError, SharedCells, StoreId,
};
use rayon::ThreadPool;

#[derive(Clone, Debug, PartialEq)]
struct Data {
    vertices: u32,
}

#[derive(Clone, Debug, PartialEq)]
struct Mesh {
    vertices: u32,
}

struct Obj;

impl Format for Obj {
    const EXTENSIONS: &'static [&'static str] = &["obj"];
    type Data = Data;

    fn parse(&self, bytes: Vec<u8>, _pool: &ThreadPool) -> Result<Data, String> {
        if bytes.is_empty() {
            Err("no vertices".to_string())
        } else {
            Ok(Data { vertices: bytes.len() as u32 })
        }
    }
}

struct MeshContext {
    created: Cell<u32>,
}

impl Context for MeshContext {
    type Asset = Mesh;
    type Data = Data;

    fn category(&self) -> &str {
        "mesh"
    }

    fn create_asset(&self, data: Data, _pool: &ThreadPool) -> Result<Mesh, String> {
        self.created.set(self.created.get() + 1);
        if data.vertices > 100 {
            Err("too many vertices".to_string())
        } else {
            Ok(Mesh { vertices: data.vertices * 2 })
        }
    }
}

impl Asset for Mesh {
    type Context = MeshContext;
}

fn pool() -> ThreadPool {
    rayon::ThreadPoolBuilder::new().num_threads(1).build().unwrap()
}

fn context() -> MeshContext {
    MeshContext { created: Cell::new(0) }
}

fn spec(name: &str) -> AssetSpec {
    AssetSpec::new(name.to_string(), Obj::EXTENSIONS, StoreId(0))
}

fn hash_of(s: &AssetSpec) -> u64 {
    let mut h = DefaultHasher::new();
    s.hash(&mut h);
    h.finish()
}

fn ready_value(f: &AssetFuture<Mesh>, cells: &SharedCells<Mesh>) -> Option<Mesh> {
    match f.peek(cells) {
        Some(Ok(m)) => Some(m.clone()),
        _ => None,
    }
}

#[test]
fn spec_equality_and_hash() {
    let a = AssetSpec::new("cube".to_string(), &["obj"], StoreId(1));
    let b = AssetSpec::new("cube".to_string(), &["obj"], StoreId(1));
    assert_eq!(a, b);
    assert_eq!(hash_of(&a), hash_of(&b));
    assert_ne!(a, AssetSpec::new("sphere".to_string(), &["obj"], StoreId(1)));
    assert_ne!(a, AssetSpec::new("cube".to_string(), &["png"], StoreId(1)));
    assert_ne!(a, AssetSpec::new("cube".to_string(), &["obj", "png"], StoreId(1)));
    assert_ne!(a, AssetSpec::new("cube".to_string(), &["obj"], StoreId(2)));
    assert_eq!(a.clone(), a);
}

#[test]
fn spec_ordering_is_total() {
    let a = AssetSpec::new("a".to_string(), &["obj"], StoreId(0));
    let b = AssetSpec::new("b".to_string(), &["obj"], StoreId(0));
    assert!(a < b);
    assert_eq!(a.cmp(&a.clone()), std::cmp::Ordering::Equal);
}

#[test]
fn peek_never_advances_a_pending_future() {
    let mut cells: SharedCells<Mesh> = SharedCells::new();
    let f = AssetFuture::from_future(&mut cells, None);
    for _ in 0..10 {
        assert!(f.peek(&cells).is_none());
    }
    assert!(cells.is_pending(f.slot()));
    assert_eq!(f.poll(&cells).unwrap(), Async::NotReady);
    assert!(f.complete(&mut cells, Ok(Mesh { vertices: 4 })));
    assert_eq!(ready_value(&f, &cells), Some(Mesh { vertices: 4 }));
}

#[test]
fn synchronous_future_is_ready_at_once() {
    let mut cells: SharedCells<Mesh> = SharedCells::new();
    let f = AssetFuture::from_future(&mut cells, Some(Ok(Mesh { vertices: 1 })));
    assert_eq!(ready_value(&f, &cells), Some(Mesh { vertices: 1 }));
    assert_eq!(cells.len(), 1);
}

#[test]
fn clones_taken_before_resolution_converge() {
    let mut cells: SharedCells<Mesh> = SharedCells::new();
    let other = AssetFuture::<Mesh>::from_future(&mut cells, None);
    let f = AssetFuture::from_future(&mut cells, None);
    let g = f.clone();
    assert_eq!(g.slot(), f.slot());
    assert!(f.complete(&mut cells, Ok(Mesh { vertices: 9 })));
    assert_eq!(ready_value(&g, &cells), Some(Mesh { vertices: 9 }));
    assert_eq!(ready_value(&f, &cells), ready_value(&g, &cells));
    assert!(other.peek(&cells).is_none());
}

#[test]
fn first_outcome_wins() {
    let mut cells: SharedCells<Mesh> = SharedCells::new();
    let f = AssetFuture::from_future(&mut cells, None);
    assert!(f.complete(&mut cells, Ok(Mesh { vertices: 2 })));
    assert!(!f.complete(&mut cells, Ok(Mesh { vertices: 3 })));
    assert_eq!(f.poll(&cells).unwrap(), Async::Ready(Mesh { vertices: 2 }));
}

#[test]
fn failure_is_observed_through_the_share() {
    let mut cells: SharedCells<Mesh> = SharedCells::new();
    let err = BoxedErr::new(ErrorKind::Construction, "broken".to_string());
    let f = AssetFuture::from_future(&mut cells, Some(Err(err)));
    match f.peek(&cells) {
        Some(Err(e)) => {
            assert_eq!(e.kind, ErrorKind::Construction);
            assert_eq!(e.description, "broken");
        }
        _ => panic!("expected a failure"),
    }
    let shared: SharedAssetError = f.clone().poll(&cells).unwrap_err();
    assert_eq!(shared.cause().kind, ErrorKind::Construction);
    assert_eq!(shared.cause().description, "broken");
}

#[test]
fn shared_error_from_boxed() {
    let e = SharedAssetError::from(BoxedErr::new(ErrorKind::Format, "bad".to_string()));
    assert_eq!(e.cause.kind, ErrorKind::Format);
    assert_eq!(e.cause.description, "bad");
}

#[test]
fn retrieve_after_cache_shares_one_future() {
    let pool = pool();
    let ctx = context();
    let mut cells: SharedCells<Mesh> = SharedCells::new();
    let mut cache: AssetCache<Mesh> = AssetCache::new();
    let s = spec("cube");
    assert!(cache.retrieve(&s).is_none());
    let f = AssetFuture::from_future(&mut cells, None);
    cache.cache(s.clone(), f.clone());
    let a = cache.retrieve(&s).unwrap();
    let b = cache.retrieve(&spec("cube")).unwrap();
    assert_eq!(a.slot(), b.slot());
    assert!(construct(&ctx, &f, &mut cells, Data { vertices: 5 }, &pool));
    assert_eq!(ready_value(&a, &cells), Some(Mesh { vertices: 10 }));
    assert_eq!(ready_value(&b, &cells), Some(Mesh { vertices: 10 }));
    assert_eq!(ctx.created.get(), 1);
}

#[test]
fn round_trip_obj() {
    let pool = pool();
    let ctx = context();
    let mut cells: SharedCells<Mesh> = SharedCells::new();
    let mut cache: AssetCache<Mesh> = AssetCache::new();
    let s = spec("triangle");
    assert_eq!(Obj::EXTENSIONS, &["obj"]);
    let data = parse_with(&Obj, vec![1, 2, 3], &pool).unwrap();
    assert_eq!(data, Data { vertices: 3 });
    let f = AssetFuture::from_future(&mut cells, None);
    assert!(construct(&ctx, &f, &mut cells, data, &pool));
    cache.cache(s.clone(), f);
    let got = cache.retrieve(&s).unwrap();
    assert_eq!(ready_value(&got, &cells), Some(Mesh { vertices: 6 }));
}

#[test]
fn load_runs_the_pipeline() {
    let pool = pool();
    let ctx = context();
    let mut cells: SharedCells<Mesh> = SharedCells::new();
    let mut cache: AssetCache<Mesh> = AssetCache::new();
    let s = spec("triangle");
    let f = load(&Obj, &ctx, &mut cache, &mut cells, &s, vec![0, 0, 0], &pool);
    assert_eq!(ready_value(&f, &cells), Some(Mesh { vertices: 6 }));
    let g = load(&Obj, &ctx, &mut cache, &mut cells, &s, vec![0; 7], &pool);
    assert_eq!(g.slot(), f.slot());
    assert_eq!(ready_value(&g, &cells), Some(Mesh { vertices: 6 }));
    assert_eq!(ctx.created.get(), 1);
    assert_eq!(ctx.category(), "mesh");
}

#[test]
fn concurrent_requests_start_one_construction() {
    let pool = pool();
    let ctx = context();
    let mut cells: SharedCells<Mesh> = SharedCells::new();
    let mut cache: AssetCache<Mesh> = AssetCache::new();
    let s = spec("rock");
    let (first, start_first) = request(&mut cache, &mut cells, &s);
    let (second, start_second) = request(&mut cache, &mut cells, &s);
    assert!(start_first);
    assert!(!start_second);
    assert_eq!(first.slot(), second.slot());
    assert!(first.peek(&cells).is_none());
    assert!(construct(&ctx, &first, &mut cells, Data { vertices: 8 }, &pool));
    assert_eq!(ctx.created.get(), 1);
    assert_eq!(ready_value(&first, &cells), Some(Mesh { vertices: 16 }));
    assert_eq!(ready_value(&second, &cells), ready_value(&first, &cells));
}

#[test]
fn failure_stays_until_cleared() {
    let pool = pool();
    let ctx = context();
    let mut cells: SharedCells<Mesh> = SharedCells::new();
    let mut cache: AssetCache<Mesh> = AssetCache::new();
    let s = spec("huge");
    let f = load(&Obj, &ctx, &mut cache, &mut cells, &s, vec![0; 200], &pool);
    match f.peek(&cells) {
        Some(Err(e)) => assert_eq!(e.kind, ErrorKind::Construction),
        _ => panic!("expected a construction failure"),
    }
    let g = load(&Obj, &ctx, &mut cache, &mut cells, &s, vec![0; 2], &pool);
    assert_eq!(g.slot(), f.slot());
    assert!(matches!(g.peek(&cells), Some(Err(_))));
    assert_eq!(ctx.created.get(), 1);
    cache.clear(&cells);
    assert!(cache.retrieve(&s).is_none());
    let h = load(&Obj, &ctx, &mut cache, &mut cells, &s, vec![0; 2], &pool);
    assert_eq!(ready_value(&h, &cells), Some(Mesh { vertices: 4 }));
    assert_eq!(ctx.created.get(), 2);
}

#[test]
fn format_failure_is_a_format_error() {
    let pool = pool();
    let ctx = context();
    let mut cells: SharedCells<Mesh> = SharedCells::new();
    let mut cache: AssetCache<Mesh> = AssetCache::new();
    let f = load(&Obj, &ctx, &mut cache, &mut cells, &spec("empty"), Vec::new(), &pool);
    match f.peek(&cells) {
        Some(Err(e)) => {
            assert_eq!(e.kind, ErrorKind::Format);
            assert_eq!(e.description, "no vertices");
        }
        _ => panic!("expected a format failure"),
    }
    assert_eq!(ctx.created.get(), 0);
    assert!(parse_with(&Obj, Vec::new(), &pool).is_err());
}

#[test]
fn update_swaps_only_cached_specs() {
    let mut cells: SharedCells<Mesh> = SharedCells::new();
    let mut cache: AssetCache<Mesh> = AssetCache::new();
    let s = spec("tree");
    let old = AssetFuture::from_future(&mut cells, Some(Ok(Mesh { vertices: 1 })));
    cache.cache(s.clone(), old.clone());
    let new = AssetFuture::from_future(&mut cells, Some(Ok(Mesh { vertices: 2 })));
    cache.update(&s, new.clone());
    assert_eq!(cache.retrieve(&s).unwrap().slot(), new.slot());
    assert_eq!(ready_value(&old, &cells), Some(Mesh { vertices: 1 }));
    let absent = spec("bush");
    cache.update(&absent, new);
    assert!(cache.retrieve(&absent).is_none());
}

#[test]
fn cache_last_writer_wins() {
    let mut cells: SharedCells<Mesh> = SharedCells::new();
    let mut cache: AssetCache<Mesh> = AssetCache::new();
    let s = spec("tree");
    let a = AssetFuture::from_future(&mut cells, None);
    let b = AssetFuture::from_future(&mut cells, None);
    cache.cache(s.clone(), a);
    cache.cache(s.clone(), b.clone());
    assert_eq!(cache.retrieve(&s).unwrap().slot(), b.slot());
}

#[test]
fn clear_keeps_loads_in_flight() {
    let mut cells: SharedCells<Mesh> = SharedCells::new();
    let mut cache: AssetCache<Mesh> = AssetCache::new();
    let pending = AssetFuture::from_future(&mut cells, None);
    let done = AssetFuture::from_future(&mut cells, Some(Ok(Mesh { vertices: 3 })));
    cache.cache(spec("pending"), pending);
    cache.cache(spec("done"), done);
    cache.clear(&cells);
    assert!(cache.retrieve(&spec("pending")).is_some());
    assert!(cache.retrieve(&spec("done")).is_none());
    cache.clear_all();
    assert!(cache.retrieve(&spec("pending")).is_none());
}
