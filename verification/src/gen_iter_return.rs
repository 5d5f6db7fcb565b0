//! An adapter that keeps the result of its computation.

use crate::coroutine::{Coroutine, CoroutineState};
use crate::progress::Progress;
use vstd::prelude::*;

verus! {

/// Holds a computation, or the result of that computation once it has
/// completed. A unique borrow of the adapter hands the yielded values out one
/// at a time through [`GenIterReturn::next`].
///
/// Compared with [`crate::GenIter`]:
/// 1. the result of the computation can be taken out after the sequence ends;
/// 2. asking for more items after the end is safe, and resumes nothing;
/// 3. each step pays for looking at the state first.
///
/// The field is `Err` while the computation runs and `Ok` once it has
/// completed.
#[derive(Debug)]
pub struct GenIterReturn<G: Coroutine>(pub Result<G::Return, G>);

impl<G: Coroutine> View for GenIterReturn<G> {
    type V = Progress<G::Yield, G::Return>;

    open spec fn view(&self) -> Progress<G::Yield, G::Return> {
        match self.0 {
            Ok(result) => Progress::Finished { result },
            Err(g) => Progress::Running { pending: g.pending(), outcome: g.outcome() },
        }
    }
}

impl<G: Coroutine> GenIterReturn<G> {
    /// An adapter is well formed when the computation it still holds has not
    /// completed. Every adapter made by [`GenIterReturn::new`] from such a
    /// computation is, and stays so however it is driven.
    pub open spec fn wf(&self) -> bool {
        self.0 is Err ==> !self.0->Err_0.completed()
    }

    /// Wraps a computation. The adapter starts out running.
    #[inline]
    pub fn new(g: G) -> (adapter: Self)
        ensures
            adapter.0 == Err::<G::Return, G>(g),
            adapter@ == (Progress::Running { pending: g.pending(), outcome: g.outcome() }),
            adapter.wf() <==> !g.completed(),
    {
        GenIterReturn(Err(g))
    }

    /// Whether the computation has completed.
    #[inline]
    pub fn is_done(&self) -> (done: bool)
        ensures
            done == self@.is_done(),
            done == self.0 is Ok,
    {
        self.0.is_ok()
    }

    /// Gives the result of the computation if it has completed, and the
    /// adapter itself, unchanged, if it has not, so that driving can go on.
    #[inline]
    pub fn return_or_self(self) -> (exchange: Result<G::Return, Self>)
        ensures
            exchange is Ok <==> self@.is_done(),
            exchange is Ok ==> self@.result() == Some(exchange->Ok_0),
            exchange is Err ==> exchange->Err_0 == self,
    {
        match self.0 {
            Ok(r) => Ok(r),
            Err(_) => Err(self),
        }
    }

    /// Hands out the next yielded value, or `None` when the sequence has
    /// ended.
    ///
    /// A finished adapter answers `None` and is left exactly as it was: no
    /// computation is resumed. A running adapter resumes its computation
    /// once. If that yields, the value is handed out and the adapter keeps
    /// running. If it completes, the adapter stores the result, becomes
    /// finished, and answers `None`.
    #[inline]
    pub fn next(&mut self) -> (item: Option<G::Yield>)
        requires
            old(self).wf(),
        ensures
            item == old(self)@.next_item(),
            final(self)@ == old(self)@.advance(),
            old(self)@.is_done() ==> *final(self) == *old(self),
            final(self).wf(),
    {
        match self.0 {
            Ok(_) => None,
            Err(ref mut g) => match g.resume() {
                CoroutineState::Yielded(y) => Some(y),
                CoroutineState::Complete(r) => {
                    self.0 = Ok(r);
                    None
                },
            },
        }
    }

    /// Drives the computation to its end and returns everything it yields on
    /// the way, in the order in which it was yielded. The adapter is finished
    /// afterwards and holds the result.
    pub fn collect(&mut self) -> (items: Vec<G::Yield>)
        requires
            old(self).wf(),
        ensures
            items@ == old(self)@.remaining(),
            final(self)@ == old(self)@.finish(),
            old(self)@.is_done() ==> *final(self) == *old(self),
            final(self).wf(),
    {
        let ghost start = *self;
        let mut items: Vec<G::Yield> = Vec::new();
        loop
            invariant_except_break
                self.wf(),
                items@ + self@.remaining() == start@.remaining(),
                self@.eventual_result() == start@.eventual_result(),
                start@.is_done() ==> *self == start,
            ensures
                self.wf(),
                items@ == start@.remaining(),
                self@ == start@.finish(),
                start@.is_done() ==> *self == start,
            decreases self@.remaining().len(),
        {
            let ghost before = self@;
            match self.next() {
                Some(y) => {
                    items.push(y);
                    assert(items@ + self@.remaining() == start@.remaining()) by {
                        assert(before.remaining() == seq![y] + self@.remaining());
                    }
                },
                None => {
                    assert(items@ + Seq::<G::Yield>::empty() == items@);
                    break ;
                },
            }
        }
        items
    }
}

impl<G: Coroutine + Clone> Clone for GenIterReturn<G> where G::Return: Clone {
    /// Clones the computation while it runs, and the result once it has
    /// completed. The copy runs exactly when the adapter it was taken from does.
    fn clone(&self) -> (copy: Self)
        ensures
            match (self.0, copy.0) {
                (Ok(r), Ok(s)) => cloned(r, s),
                (Err(g), Err(h)) => cloned(g, h),
                _ => false,
            },
    {
        match &self.0 {
            Ok(r) => GenIterReturn(Ok(r.clone())),
            Err(g) => GenIterReturn(Err(g.clone())),
        }
    }
}

impl<G: Coroutine + Copy> Copy for GenIterReturn<G> where G::Return: Copy {

}

impl<G: Coroutine> From<G> for GenIterReturn<G> {
    /// Wraps a computation, as [`GenIterReturn::new`] does.
    #[inline]
    fn from(g: G) -> (adapter: Self)
        ensures
            adapter.0 == Err::<G::Return, G>(g),
    {
        GenIterReturn::new(g)
    }
}

impl<G: Coroutine> vstd::std_specs::convert::FromSpecImpl<G> for GenIterReturn<G> {
    open spec fn obeys_from_spec() -> bool {
        true
    }

    open spec fn from_spec(g: G) -> Self {
        GenIterReturn(Err(g))
    }
}

} // verus!
