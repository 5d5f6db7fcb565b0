//! An adapter with no state of its own.

use crate::coroutine::{Coroutine, CoroutineState};
use crate::progress::Progress;
use vstd::prelude::*;

verus! {

/// Hands out the values that a computation yields, one at a time.
///
/// The adapter is nothing but the computation it wraps: it does not remember
/// whether the computation has completed. The end of the sequence is
/// therefore the last thing it may be asked for. Once [`GenIter::next`] has
/// answered `None`, it must not be called again. Use
/// [`crate::GenIterReturn`] where that cannot be promised.
///
/// The computation may be held by value, in a `Box`, or through a `&mut`
/// handle to the place where it stays.
#[derive(Debug)]
pub struct GenIter<T: Coroutine<Return = ()>>(pub T);

impl<T: Coroutine<Return = ()>> View for GenIter<T> {
    type V = Progress<T::Yield, ()>;

    open spec fn view(&self) -> Progress<T::Yield, ()> {
        if self.0.completed() {
            Progress::Finished { result: () }
        } else {
            Progress::Running { pending: self.0.pending(), outcome: () }
        }
    }
}

impl<T: Coroutine<Return = ()>> GenIter<T> {
    /// Hands out the next yielded value, or `None` when the computation
    /// completes.
    ///
    /// The computation is resumed once, whatever state it is in, which is why
    /// the adapter must still be running.
    #[inline]
    pub fn next(&mut self) -> (item: Option<T::Yield>)
        requires
            !old(self)@.is_done(),
        ensures
            item == old(self)@.next_item(),
            final(self)@ == old(self)@.advance(),
    {
        match self.0.resume() {
            CoroutineState::Yielded(n) => Some(n),
            CoroutineState::Complete(()) => None,
        }
    }

    /// Drives the computation to its end and returns everything it yields on
    /// the way, in the order in which it was yielded.
    pub fn collect(self) -> (items: Vec<T::Yield>)
        requires
            !self@.is_done(),
        ensures
            items@ == self@.remaining(),
    {
        let mut adapter = self;
        let mut items: Vec<T::Yield> = Vec::new();
        loop
            invariant_except_break
                !adapter@.is_done(),
                items@ + adapter@.remaining() == self@.remaining(),
            ensures
                items@ == self@.remaining(),
            decreases adapter@.remaining().len(),
        {
            let ghost before = adapter@;
            match adapter.next() {
                Some(y) => {
                    items.push(y);
                    assert(items@ + adapter@.remaining() == self@.remaining()) by {
                        assert(before.remaining() == seq![y] + adapter@.remaining());
                    }
                },
                None => {
                    assert(items@ + Seq::<T::Yield>::empty() == items@);
                    break ;
                },
            }
        }
        items
    }
}

impl<T: Coroutine<Return = ()> + Clone> Clone for GenIter<T> {
    /// Clones the computation that the adapter wraps.
    fn clone(&self) -> (copy: Self)
        ensures
            cloned(self.0, copy.0),
    {
        GenIter(self.0.clone())
    }
}

impl<T: Coroutine<Return = ()> + Copy> Copy for GenIter<T> {

}

impl<G: Coroutine<Return = ()>> From<G> for GenIter<G> {
    /// Wraps a computation.
    #[inline]
    fn from(g: G) -> (adapter: Self)
        ensures
            adapter.0 == g,
    {
        GenIter(g)
    }
}

impl<G: Coroutine<Return = ()>> vstd::std_specs::convert::FromSpecImpl<G> for GenIter<G> {
    open spec fn obeys_from_spec() -> bool {
        true
    }

    open spec fn from_spec(g: G) -> Self {
        GenIter(g)
    }
}

} // verus!
