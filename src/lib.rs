//! Asynchronous asset loading: identity keys, shared asset futures, per-type
//! caches and the traits that bind formats and contexts to asset types.

pub mod cache;
pub mod error;
pub mod future;
pub mod identity;
pub mod laws;
pub mod load;
pub mod traits;

pub use cache::AssetCache;
pub use error::{tag_failure, BoxedErr, ErrorKind, SharedAssetError};
pub use future::{AssetFuture, Async, FutureState, SharedCells};
pub use identity::{AssetSpec, StoreId};
pub use load::{construct, load, parse_with, request};
pub use traits::{Asset, Context, Format};
