//! Adapters that turn a suspendable computation into a pull-based sequence.
//!
//! A suspendable computation runs until it yields a value or completes with a
//! result, and can be resumed from exactly the point at which it paused. The
//! adapters of this crate drive one such computation and hand its yielded
//! values out one at a time:
//!
//! - [`GenIter`] wraps a computation whose result carries no information. It
//!   keeps no state of its own, so the caller must stop asking once the
//!   sequence has ended.
//! - [`GenIterReturn`] wraps a computation whose result is wanted afterwards.
//!   It remembers that the computation has completed, keeps the result, and
//!   may be asked for more items any number of times without ever resuming a
//!   completed computation.
//!
//! What a computation is, and what may be assumed of it, is fixed by the
//! [`Coroutine`] trait. What an adapter looks like to its caller is a
//! [`Progress`], and the laws that every adapter obeys are proved over it.

pub mod coroutine;
pub mod gen_iter;
pub mod gen_iter_return;
pub mod progress;
pub mod steps;

pub use crate::coroutine::{Coroutine, CoroutineState};
pub use crate::gen_iter::GenIter;
pub use crate::gen_iter_return::GenIterReturn;
pub use crate::progress::Progress;
pub use crate::steps::{SliceSteps, VecSteps};
