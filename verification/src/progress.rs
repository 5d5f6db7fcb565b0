//! What an adapter looks like to its caller, and the laws of driving it.

use vstd::prelude::*;

verus! {

/// The observable state of an adapter.
///
/// An adapter is either still driving its computation, in which case the
/// values yet to come and the result to come are known, or it has seen the
/// computation complete and holds the result. There is no third state, and
/// no way back from `Finished` to `Running`.
pub enum Progress<Y, R> {
    /// The computation has not completed.
    Running {
        /// The values still to be handed out, in order.
        pending: Seq<Y>,
        /// The result that the computation will complete with.
        outcome: R,
    },
    /// The computation has completed.
    Finished {
        /// The result that it completed with.
        result: R,
    },
}

impl<Y, R> Progress<Y, R> {
    /// Whether the computation has completed.
    pub open spec fn is_done(self) -> bool {
        self is Finished
    }

    /// The values still to be handed out, in order. None is left once the
    /// computation has completed.
    pub open spec fn remaining(self) -> Seq<Y> {
        match self {
            Progress::Running { pending, .. } => pending,
            Progress::Finished { .. } => Seq::empty(),
        }
    }

    /// The result of the computation, whether it has been reached or not.
    pub open spec fn eventual_result(self) -> R {
        match self {
            Progress::Running { outcome, .. } => outcome,
            Progress::Finished { result } => result,
        }
    }

    /// The result that can be taken out now: the computation's result once
    /// it has completed, and nothing before.
    pub open spec fn result(self) -> Option<R> {
        match self {
            Progress::Running { .. } => None,
            Progress::Finished { result } => Some(result),
        }
    }

    /// What the next advance hands out: the first of the remaining values,
    /// or the end-of-sequence signal when none remains.
    pub open spec fn next_item(self) -> Option<Y> {
        if self.remaining().len() > 0 {
            Some(self.remaining()[0])
        } else {
            None
        }
    }

    /// The state after one advance.
    ///
    /// A running adapter with values left drops the first of them. A running
    /// adapter with none left sees the computation complete and keeps its
    /// result. A finished adapter stays as it is.
    pub open spec fn advance(self) -> Self {
        match self {
            Progress::Running { pending, outcome } => {
                if pending.len() > 0 {
                    Progress::Running { pending: pending.drop_first(), outcome }
                } else {
                    Progress::Finished { result: outcome }
                }
            },
            Progress::Finished { .. } => self,
        }
    }

    /// The state once the computation has been driven to its end: finished,
    /// and holding the result.
    pub open spec fn finish(self) -> Self {
        Progress::Finished { result: self.eventual_result() }
    }

    /// The state after `n` advances.
    pub open spec fn advance_by(self, n: nat) -> Self
        decreases n,
    {
        if n == 0 {
            self
        } else {
            self.advance().advance_by((n - 1) as nat)
        }
    }
}

/// One advance takes the first remaining value away and leaves the result to
/// come as it was. It finishes the adapter exactly when nothing remained.
pub proof fn lemma_advance<Y, R>(p: Progress<Y, R>)
    ensures
        p.advance().remaining() == if p.remaining().len() > 0 {
            p.remaining().drop_first()
        } else {
            Seq::<Y>::empty()
        },
        p.advance().eventual_result() == p.eventual_result(),
        p.advance().is_done() <==> p.is_done() || p.remaining().len() == 0,
{
}

/// The state after `k` advances, in closed form: the first `k` remaining
/// values are gone, the result to come is as it was, and the adapter is
/// finished exactly when it was finished before or has advanced more often
/// than values remained.
pub proof fn lemma_advance_by<Y, R>(p: Progress<Y, R>, k: nat)
    ensures
        p.advance_by(k).remaining() == if k <= p.remaining().len() {
            p.remaining().skip(k as int)
        } else {
            Seq::<Y>::empty()
        },
        p.advance_by(k).eventual_result() == p.eventual_result(),
        p.advance_by(k).is_done() <==> p.is_done() || k > p.remaining().len(),
    decreases k,
{
    if k == 0 {
        assert(p.remaining().skip(0) == p.remaining());
    } else {
        let q = p.advance();
        lemma_advance(p);
        lemma_advance_by(q, (k - 1) as nat);
        if p.remaining().len() > 0 && k <= p.remaining().len() {
            assert(p.remaining().drop_first().skip(k - 1) == p.remaining().skip(k as int));
        }
    }
}

/// Order is preserved. Driving an adapter hands out the values that its
/// computation yields, each once and in the order in which they are yielded,
/// and then the end-of-sequence signal: the advance that follows `k` earlier
/// ones hands out the `k`-th of the values that remained at the start, and
/// `None` once `k` has reached their number.
pub proof fn lemma_items_come_in_order<Y, R>(p: Progress<Y, R>, k: nat)
    ensures
        k < p.remaining().len() ==> p.advance_by(k).next_item() == Some(p.remaining()[k as int]),
        k >= p.remaining().len() ==> p.advance_by(k).next_item() is None,
{
    lemma_advance_by(p, k);
}

/// A finished adapter is fused. However often it is advanced, it stays
/// exactly as it is and hands out nothing but the end-of-sequence signal.
pub proof fn lemma_finished_is_fused<Y, R>(p: Progress<Y, R>, n: nat)
    requires
        p.is_done(),
    ensures
        p.advance_by(n) == p,
        p.advance_by(n).next_item() is None,
    decreases n,
{
    if n > 0 {
        lemma_finished_is_fused(p, (n - 1) as nat);
    }
}

/// Completion is monotonic. An adapter that starts out running with `n`
/// values to come is not done after any of its first `n` advances, the next
/// advance completes it, and it is done after every advance from then on.
/// In particular an adapter that is done never goes back to running.
pub proof fn lemma_completion_is_monotonic<Y, R>(p: Progress<Y, R>, i: nat, j: nat)
    requires
        i <= j,
    ensures
        !p.is_done() ==> (p.advance_by(i).is_done() <==> i > p.remaining().len()),
        p.advance_by(i).is_done() ==> p.advance_by(j).is_done(),
{
    lemma_advance_by(p, i);
    lemma_advance_by(p, j);
}

/// The result is exchanged at completion and not before. While an adapter
/// that started out running has advanced no more often than values remained,
/// no result can be taken from it. After any further advance the result that
/// can be taken is the one its computation completed with.
pub proof fn lemma_result_after_completion<Y, R>(p: Progress<Y, R>, k: nat)
    requires
        !p.is_done(),
    ensures
        k <= p.remaining().len() ==> p.advance_by(k).result() is None,
        k > p.remaining().len() ==> p.advance_by(k).result() == Some(p.eventual_result()),
{
    lemma_advance_by(p, k);
}

/// Adapters with the same values to come hand out the same sequence,
/// whatever computations they drive, wherever those are placed, and whatever
/// results they complete with.
pub proof fn lemma_same_pending_same_items<Y, R, S>(p: Progress<Y, R>, q: Progress<Y, S>, k: nat)
    requires
        p.remaining() == q.remaining(),
    ensures
        p.advance_by(k).next_item() == q.advance_by(k).next_item(),
{
    lemma_items_come_in_order(p, k);
    lemma_items_come_in_order(q, k);
}

} // verus!
