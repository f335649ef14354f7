use rayon::ThreadPool;
use vstd::prelude::*;

verus! {

/// rayon's worker pool. The library only borrows it and hands it on to
/// formats and contexts; nothing of its contents is read.
#[verifier::external_type_specification]
#[verifier::external_body]
pub struct ExThreadPool(ThreadPool);

/// One of the three core traits of this crate.
///
/// Implement it for every type of asset (`Mesh`, `Texture`, `Terrain`, ...).
/// An asset may be available in different formats, which all produce the
/// intermediate `Data` of its context.
pub trait Asset: Sized {
    /// The `Context` type that can produce this asset
    type Context: Context<Asset = Self>;
}

/// The context type which manages assets of one type: it turns intermediate
/// data into assets. Caching is done by an `AssetCache` of the asset type.
pub trait Context {
    /// The asset type this context can produce.
    type Asset;
    /// The `Data` type the asset can be created from.
    type Data;

    /// A small keyword for the category these assets belong to (`"mesh"`,
    /// `"data"`, ...). A storage may use it to search a subfolder of that name.
    fn category(&self) -> &str;

    /// Provides the conversion from the data format to the actual asset; an
    /// error describes why the data could not be turned into an asset.
    fn create_asset(&self, data: Self::Data, pool: &ThreadPool) -> Result<Self::Asset, String>;
}

/// A format, providing a conversion from bytes to asset data (`Png`, `Obj`,
/// `Wave`, ...).
pub trait Format {
    /// A list of the extensions (without `.`), such as `"png"`, `"obj"`, `"wav"`.
    const EXTENSIONS: &'static [&'static str];
    /// The data type this format is able to load.
    type Data;

    /// Reads the given bytes and produces asset data; an error describes why
    /// the bytes could not be read.
    fn parse(&self, bytes: Vec<u8>, pool: &ThreadPool) -> Result<Self::Data, String>;
}

} // verus!
