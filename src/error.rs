use vstd::prelude::*;

verus! {

/// Where in the loading pipeline a failure arose.
#[derive(Clone, Copy, Debug, PartialEq, Eq, Structural)]
pub enum ErrorKind {
    /// Parsing raw bytes into intermediate data failed.
    Format,
    /// Turning valid intermediate data into an asset failed.
    Construction,
}

/// A type-erased loading error: its kind and a description of the root cause.
#[derive(Debug)]
pub struct BoxedErr {
    pub kind: ErrorKind,
    pub description: String,
}

impl View for BoxedErr {
    type V = (ErrorKind, Seq<char>);

    open spec fn view(&self) -> (ErrorKind, Seq<char>) {
        (self.kind, self.description@)
    }
}

impl BoxedErr {
    /// Creates an error of the given kind.
    pub fn new(kind: ErrorKind, description: String) -> (r: Self)
        ensures
            r == (BoxedErr { kind, description }),
    {
        BoxedErr { kind, description }
    }
}

impl Clone for BoxedErr {
    fn clone(&self) -> (r: Self)
        ensures
            r@ == self@,
    {
        BoxedErr { kind: self.kind, description: self.description.clone() }
    }
}

/// A result of a format or a context, with a failure turned into an error of
/// the given kind.
pub open spec fn tagged<D>(r: Result<D, String>, kind: ErrorKind) -> Result<D, BoxedErr> {
    match r {
        Ok(d) => Ok(d),
        Err(description) => Err(BoxedErr { kind, description }),
    }
}

/// Turns the failure of a format or a context into an error of the given kind.
pub fn tag_failure<D>(r: Result<D, String>, kind: ErrorKind) -> (out: Result<D, BoxedErr>)
    ensures
        out == tagged(r, kind),
{
    match r {
        Ok(d) => Ok(d),
        Err(description) => Err(BoxedErr::new(kind, description)),
    }
}

/// The error seen through a shared future: a failure that the observer did not
/// cause itself but learned of through a clone. The underlying error stays
/// inspectable as `cause`.
#[derive(Debug)]
pub struct SharedAssetError {
    pub cause: BoxedErr,
}

impl SharedAssetError {
    /// The underlying error.
    pub fn cause(&self) -> (r: &BoxedErr)
        ensures
            r == &self.cause,
    {
        &self.cause
    }
}

impl From<BoxedErr> for SharedAssetError {
    fn from(err: BoxedErr) -> (r: SharedAssetError) {
        SharedAssetError { cause: err }
    }
}

impl vstd::std_specs::convert::FromSpecImpl<BoxedErr> for SharedAssetError {
    open spec fn obeys_from_spec() -> bool {
        true
    }

    open spec fn from_spec(err: BoxedErr) -> SharedAssetError {
        SharedAssetError { cause: err }
    }
}

} // verus!
