//! Computations that walk over a sequence of values, written out by hand.
//!
//! Each of them yields the values of a sequence one by one, by index, and
//! then completes with the result it was given. [`VecSteps`] owns the values.
//! [`SliceSteps`] borrows them from its caller.

use crate::coroutine::{Coroutine, CoroutineState};
use vstd::prelude::*;

verus! {

/// A computation that yields each value of a vector it owns, in order, and
/// then completes.
#[derive(Clone, Debug)]
pub struct VecSteps<Y, R> {
    items: Vec<Y>,
    next: usize,
    result: Option<R>,
}

impl<Y: Copy, R> VecSteps<Y, R> {
    /// A computation that will yield the values of `items`, first to last,
    /// and then complete with `result`.
    pub fn new(items: Vec<Y>, result: R) -> (steps: Self)
        ensures
            steps.pending() == items@,
            steps.outcome() == result,
            !steps.completed(),
    {
        let steps = VecSteps { items, next: 0, result: Some(result) };
        assert(steps.items@.skip(0) == steps.items@);
        steps
    }
}

impl<Y: Copy, R> Coroutine for VecSteps<Y, R> {
    type Yield = Y;

    type Return = R;

    closed spec fn pending(&self) -> Seq<Y> {
        if self.next < self.items.len() {
            self.items@.skip(self.next as int)
        } else {
            Seq::empty()
        }
    }

    closed spec fn outcome(&self) -> R {
        self.result->Some_0
    }

    closed spec fn completed(&self) -> bool {
        self.result is None
    }

    fn resume(&mut self) -> (state: CoroutineState<Y, R>) {
        if self.next < self.items.len() {
            let item = self.items[self.next];
            self.next = self.next + 1;
            assert((*self).pending() == (*old(self)).pending().drop_first());
            CoroutineState::Yielded(item)
        } else {
            CoroutineState::Complete(self.result.take().unwrap())
        }
    }
}

/// A computation that yields each value of a slice it borrows, in order, and
/// then completes.
#[derive(Clone, Copy, Debug)]
pub struct SliceSteps<'a, Y, R> {
    items: &'a [Y],
    next: usize,
    result: Option<R>,
}

impl<'a, Y: Copy, R> SliceSteps<'a, Y, R> {
    /// A computation that will yield the values of `items`, first to last,
    /// and then complete with `result`.
    pub fn new(items: &'a [Y], result: R) -> (steps: Self)
        ensures
            steps.pending() == items@,
            steps.outcome() == result,
            !steps.completed(),
    {
        let steps = SliceSteps { items, next: 0, result: Some(result) };
        assert(steps.items@.skip(0) == steps.items@);
        steps
    }
}

impl<'a, Y: Copy, R> Coroutine for SliceSteps<'a, Y, R> {
    type Yield = Y;

    type Return = R;

    closed spec fn pending(&self) -> Seq<Y> {
        if self.next < self.items.len() {
            self.items@.skip(self.next as int)
        } else {
            Seq::empty()
        }
    }

    closed spec fn outcome(&self) -> R {
        self.result->Some_0
    }

    closed spec fn completed(&self) -> bool {
        self.result is None
    }

    fn resume(&mut self) -> (state: CoroutineState<Y, R>) {
        if self.next < self.items.len() {
            let item = self.items[self.next];
            self.next = self.next + 1;
            assert((*self).pending() == (*old(self)).pending().drop_first());
            CoroutineState::Yielded(item)
        } else {
            CoroutineState::Complete(self.result.take().unwrap())
        }
    }
}

} // verus!
