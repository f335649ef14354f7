use std::marker::PhantomData;
use vstd::prelude::*;

use crate::error::{BoxedErr, SharedAssetError};

verus! {

/// The state of one shared computation.
pub enum FutureState<A> {
    /// Not resolved yet.
    Pending,
    /// Resolved to a value.
    Ready(A),
    /// Resolved to a failure, kept for every later observer.
    Failed(BoxedErr),
}

/// The outcome of polling an `AssetFuture`.
#[derive(Debug, PartialEq, Eq)]
pub enum Async<T> {
    NotReady,
    Ready(T),
}

/// The state a computation starts in: pending, or already settled when it
/// resolved synchronously.
pub open spec fn initial_state<A>(outcome: Option<Result<A, BoxedErr>>) -> FutureState<A> {
    match outcome {
        None => FutureState::Pending,
        Some(Ok(a)) => FutureState::Ready(a),
        Some(Err(e)) => FutureState::Failed(e),
    }
}

/// The cells after the computation behind `slot` finished with `outcome`: the
/// first outcome is kept, later ones change nothing.
pub open spec fn completed<A>(
    cells: Seq<FutureState<A>>,
    slot: int,
    outcome: Result<A, BoxedErr>,
) -> Seq<FutureState<A>> {
    if cells[slot] is Pending {
        cells.update(slot, initial_state(Some(outcome)))
    } else {
        cells
    }
}

/// What `peek` reports for a state.
pub open spec fn peeked<A>(state: FutureState<A>, r: Option<Result<&A, &BoxedErr>>) -> bool {
    match state {
        FutureState::Pending => r is None,
        FutureState::Ready(a) => r == Some(Ok::<&A, &BoxedErr>(&a)),
        FutureState::Failed(e) => r == Some(Err::<&A, &BoxedErr>(&e)),
    }
}

/// The shared state of every computation that asset futures refer to. Clones
/// of an `AssetFuture` refer to the same cell, so they observe one computation.
pub struct SharedCells<A> {
    cells: Vec<FutureState<A>>,
    id: Ghost<int>,
}

impl<A> View for SharedCells<A> {
    type V = Seq<FutureState<A>>;

    closed spec fn view(&self) -> Seq<FutureState<A>> {
        self.cells@
    }
}

impl<A> SharedCells<A> {
    /// The identity of this set of cells: handles record the identity of the
    /// cells they were made in, and are used with those cells only.
    pub closed spec fn id(&self) -> int {
        self.id@
    }

    /// No computations yet, under an identity that no caller can assume to
    /// equal that of other cells.
    pub fn new() -> (r: Self)
        ensures
            r@ == Seq::<FutureState<A>>::empty(),
    {
        SharedCells { cells: Vec::new(), id: Ghost(arbitrary()) }
    }

    /// The number of computations.
    pub fn len(&self) -> (r: usize)
        ensures
            r == self@.len(),
    {
        self.cells.len()
    }

    /// Whether the computation in `slot` has not resolved yet (false for a slot
    /// that holds none).
    pub fn is_pending(&self, slot: usize) -> (r: bool)
        ensures
            r == (slot < self@.len() && self@[slot as int] is Pending),
    {
        slot < self.cells.len() && match &self.cells[slot] {
            FutureState::Pending => true,
            _ => false,
        }
    }
}

/// A future for an asset: a handle on one shared computation. Cloning it is
/// cheap and never starts the computation again.
pub struct AssetFuture<A> {
    slot: usize,
    owner: Ghost<int>,
    marker: PhantomData<A>,
}

impl<A> View for AssetFuture<A> {
    type V = usize;

    closed spec fn view(&self) -> usize {
        self.slot
    }
}

impl<A> Clone for AssetFuture<A> {
    fn clone(&self) -> (r: Self)
        ensures
            r@ == self@,
            r.owner() == self.owner(),
    {
        AssetFuture { slot: self.slot, owner: self.owner, marker: PhantomData }
    }
}

impl<A> AssetFuture<A> {
    /// The identity of the cells this handle was made in.
    pub closed spec fn owner(&self) -> int {
        self.owner@
    }

    /// The identity of this handle: the cells it was made in, and its cell.
    pub open spec fn handle(&self) -> (int, usize) {
        (self.owner(), self@)
    }

    /// Whether this handle refers to a computation of `cells`: it was made in
    /// them, and its cell exists.
    pub open spec fn is_in(&self, cells: &SharedCells<A>) -> bool {
        self.owner() == cells.id() && self@ < cells@.len()
    }

    /// The cell this handle refers to.
    pub fn slot(&self) -> (r: usize)
        ensures
            r == self@,
    {
        self.slot
    }

    /// Wraps a new computation into an `AssetFuture`: pending when `outcome` is
    /// `None`, else already settled with it.
    pub fn from_future(cells: &mut SharedCells<A>, outcome: Option<Result<A, BoxedErr>>) -> (r:
        Self)
        ensures
            final(cells)@ == old(cells)@.push(initial_state(outcome)),
            final(cells).id() == old(cells).id(),
            r@ == old(cells)@.len(),
            r.owner() == old(cells).id(),
    {
        let slot = cells.cells.len();
        cells.cells.push(
            match outcome {
                None => FutureState::Pending,
                Some(Ok(a)) => FutureState::Ready(a),
                Some(Err(e)) => FutureState::Failed(e),
            },
        );
        AssetFuture { slot, owner: Ghost(cells.id@), marker: PhantomData }
    }

    /// Hands the outcome of the underlying computation to the shared state.
    /// Only the first outcome counts: returns whether this one settled it.
    pub fn complete(&self, cells: &mut SharedCells<A>, outcome: Result<A, BoxedErr>) -> (r: bool)
        requires
            self.is_in(old(cells)),
        ensures
            final(cells)@ == completed(old(cells)@, self@ as int, outcome),
            final(cells).id() == old(cells).id(),
            r == old(cells)@[self@ as int] is Pending,
    {
        if cells.is_pending(self.slot) {
            let state = match outcome {
                Ok(a) => FutureState::Ready(a),
                Err(e) => FutureState::Failed(e),
            };
            cells.cells.set(self.slot, state);
            true
        } else {
            false
        }
    }

    /// If any clone of this future has completed execution, returns its result
    /// immediately without blocking. Otherwise returns `None`; the shared state
    /// is only read, so the work is not triggered.
    pub fn peek<'a>(&self, cells: &'a SharedCells<A>) -> (r: Option<Result<&'a A, &'a BoxedErr>>)
        requires
            self.is_in(cells),
        ensures
            peeked(cells@[self@ as int], r),
    {
        match &cells.cells[self.slot] {
            FutureState::Pending => None,
            FutureState::Ready(a) => Some(Ok(a)),
            FutureState::Failed(e) => Some(Err(e)),
        }
    }

    /// Polls the shared computation: not ready while it is pending, a clone of
    /// the value once it resolved, and the failure wrapped as observed through a
    /// share once it failed.
    pub fn poll(&self, cells: &SharedCells<A>) -> (r: Result<Async<A>, SharedAssetError>) where
        A: Clone,

        requires
            self.is_in(cells),
        ensures
            match cells@[self@ as int] {
                FutureState::Pending => r == Ok::<Async<A>, SharedAssetError>(Async::NotReady),
                FutureState::Ready(a) => r matches Ok(Async::Ready(b)) && cloned(a, b),
                FutureState::Failed(e) => r matches Err(s) && s.cause@ == e@,
            },
    {
        match &cells.cells[self.slot] {
            FutureState::Pending => Ok(Async::NotReady),
            FutureState::Ready(a) => Ok(Async::Ready(a.clone())),
            FutureState::Failed(e) => Err(SharedAssetError::from(e.clone())),
        }
    }
}

} // verus!
