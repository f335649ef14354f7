use vstd::prelude::*;

verus! {

/// Identifies the storage backend an asset was loaded from.
#[derive(Clone, Copy, Debug, PartialEq, Eq, Structural, Hash, PartialOrd, Ord)]
pub struct StoreId(pub usize);

/// The mathematical value of an `AssetSpec`: its extensions, its name and its store.
pub type SpecKey = (Seq<Seq<char>>, Seq<char>, usize);

/// The extensions of a list, as character sequences.
pub open spec fn exts_view(exts: &[&str]) -> Seq<Seq<char>> {
    exts@.map_values(|e: &str| e@)
}

/// A specifier for an asset, uniquely identifying it by
///
/// * the extension (the format it was provided in)
/// * its name
/// * the storage it was loaded from
#[derive(Debug, Eq, Hash, PartialOrd, Ord)]
pub struct AssetSpec {
    /// The possible extensions of this asset
    pub exts: &'static [&'static str],
    /// The name of this asset.
    pub name: String,
    /// Unique identifier indicating the Storage from which the asset was loaded.
    pub store: StoreId,
}

impl View for AssetSpec {
    type V = SpecKey;

    open spec fn view(&self) -> SpecKey {
        (exts_view(self.exts), self.name@, self.store.0)
    }
}

impl AssetSpec {
    /// Creates a new asset specifier from the given parameters.
    pub fn new(name: String, exts: &'static [&'static str], store: StoreId) -> (r: Self)
        ensures
            r.name@ == name@,
            r.exts == exts,
            r.store == store,
            r@ == (exts_view(exts), name@, store.0),
    {
        AssetSpec { exts, name, store }
    }
}

/// Compares two strings character by character.
fn str_eq(a: &str, b: &str) -> (r: bool)
    ensures
        r == (a@ == b@),
{
    let n = a.unicode_len();
    if n != b.unicode_len() {
        return false;
    }
    let mut i: usize = 0;
    while i < n
        invariant
            n == a@.len(),
            n == b@.len(),
            i <= n,
            forall|j: int| 0 <= j < i ==> a@[j] == b@[j],
        decreases n - i,
    {
        if a.get_char(i) != b.get_char(i) {
            return false;
        }
        i = i + 1;
    }
    assert(a@ =~= b@);
    true
}

/// Compares two lists of extensions element by element.
fn exts_eq(a: &[&str], b: &[&str]) -> (r: bool)
    ensures
        r == (exts_view(a) == exts_view(b)),
{
    let n = a.len();
    if n != b.len() {
        assert(exts_view(a).len() != exts_view(b).len());
        return false;
    }
    let mut i: usize = 0;
    while i < n
        invariant
            n == a@.len(),
            n == b@.len(),
            i <= n,
            forall|j: int| 0 <= j < i ==> exts_view(a)[j] == exts_view(b)[j],
        decreases n - i,
    {
        if !str_eq(a[i], b[i]) {
            assert(exts_view(a)[i as int] != exts_view(b)[i as int]);
            return false;
        }
        i = i + 1;
    }
    assert(exts_view(a) =~= exts_view(b));
    true
}

impl PartialEq for AssetSpec {
    fn eq(&self, other: &AssetSpec) -> (r: bool) {
        self.store == other.store && self.name == other.name && exts_eq(self.exts, other.exts)
    }
}

impl vstd::std_specs::cmp::PartialEqSpecImpl for AssetSpec {
    open spec fn obeys_eq_spec() -> bool {
        true
    }

    open spec fn eq_spec(&self, other: &AssetSpec) -> bool {
        self@ == other@
    }
}

impl Clone for AssetSpec {
    fn clone(&self) -> (r: Self)
        ensures
            r@ == self@,
            r.exts == self.exts,
    {
        AssetSpec { exts: self.exts, name: self.name.clone(), store: self.store }
    }
}

} // verus!
