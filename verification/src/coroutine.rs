//! The contract of a suspendable computation.

use vstd::prelude::*;

verus! {

/// What one resumption of a computation ends with.
#[derive(Clone, Copy, Debug, PartialEq, Eq)]
pub enum CoroutineState<Y, R> {
    /// The computation paused and handed out a value. It can be resumed again.
    Yielded(Y),
    /// The computation ran to its end and handed out its result. It must not
    /// be resumed again.
    Complete(R),
}

/// A computation that can pause at defined points, yielding a value each
/// time, and that completes with a result after finitely many yields.
///
/// A computation is described by three ghost observations: the values it has
/// yet to yield, the result it will complete with, and whether it has
/// completed. `resume` is the only operation, and its contract ties what
/// it returns to those observations.
pub trait Coroutine {
    /// The type of the values handed out at each pause.
    type Yield;

    /// The type of the result handed out at completion.
    type Return;

    /// The values that this computation has yet to yield, in the order in
    /// which it will yield them.
    spec fn pending(&self) -> Seq<Self::Yield>;

    /// The result that this computation completes with. It is meaningful
    /// until the computation has completed.
    spec fn outcome(&self) -> Self::Return;

    /// Whether this computation has completed. A completed computation must
    /// not be resumed.
    spec fn completed(&self) -> bool;

    /// Runs the computation up to its next pause or to its end.
    ///
    /// While values are pending, the first of them is yielded and the rest
    /// stay pending. Once none is pending, the computation completes with
    /// its result.
    fn resume(&mut self) -> (state: CoroutineState<Self::Yield, Self::Return>)
        requires
            !old(self).completed(),
        ensures
            old(self).pending().len() > 0 ==> {
                &&& state == CoroutineState::<Self::Yield, Self::Return>::Yielded(
                    old(self).pending()[0],
                )
                &&& final(self).pending() == old(self).pending().drop_first()
                &&& final(self).outcome() == old(self).outcome()
                &&& !final(self).completed()
            },
            old(self).pending().len() == 0 ==> {
                &&& state == CoroutineState::<Self::Yield, Self::Return>::Complete(
                    old(self).outcome(),
                )
                &&& final(self).completed()
            },
    ;
}

/// A unique handle to a computation that stays where it is.
///
/// Driving the handle drives the computation behind it, so an adapter can be
/// built over a computation that must not be moved once it has started.
impl<G: Coroutine> Coroutine for &mut G {
    type Yield = G::Yield;

    type Return = G::Return;

    open spec fn pending(&self) -> Seq<G::Yield> {
        (**self).pending()
    }

    open spec fn outcome(&self) -> G::Return {
        (**self).outcome()
    }

    open spec fn completed(&self) -> bool {
        (**self).completed()
    }

    fn resume(&mut self) -> (state: CoroutineState<G::Yield, G::Return>) {
        (**self).resume()
    }
}

/// A computation placed on the heap. Moving the box leaves the computation
/// where it is.
impl<G: Coroutine> Coroutine for Box<G> {
    type Yield = G::Yield;

    type Return = G::Return;

    open spec fn pending(&self) -> Seq<G::Yield> {
        (**self).pending()
    }

    open spec fn outcome(&self) -> G::Return {
        (**self).outcome()
    }

    open spec fn completed(&self) -> bool {
        (**self).completed()
    }

    fn resume(&mut self) -> (state: CoroutineState<G::Yield, G::Return>) {
        (**self).resume()
    }
}

} // verus!
