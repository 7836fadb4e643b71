//! A token that lets one thread ask another to stop an operation, politely
//! first and forcefully second.
use std::sync::atomic::{AtomicBool, Ordering};
use std::sync::Arc;
use vstd::prelude::*;

verus! {

/// A shared pair of flags: `cancel` asks an operation to stop, and
/// `force_cancel` asks that its process be killed. Clones share the flags,
/// so a request made through one clone is seen through every other.
///
/// The flags live in atomics shared between threads, so what a read returns
/// depends on what other threads did; no contract here states a flag's value.
#[derive(Clone)]
pub struct CancellationToken {
    cancelled: Arc<AtomicBool>,
    force_cancelled: Arc<AtomicBool>,
}

/// Calls `Arc::clone`, which hands out a new pointer to the same
/// allocation: the copy points to the very value the original points to,
/// so the two are equal as values.
#[verifier::external_body]
fn share_arc<T>(a: &Arc<T>) -> (r: Arc<T>)
    ensures
        r == *a,
{
    Arc::clone(a)
}

impl CancellationToken {
    /// Another handle on the same two flags: a request made through either
    /// handle is seen through the other.
    pub fn share(&self) -> (r: CancellationToken)
        ensures
            r == *self,
    {
        CancellationToken {
            cancelled: share_arc(&self.cancelled),
            force_cancelled: share_arc(&self.force_cancelled),
        }
    }

    /// A token with neither request made.
    pub fn new() -> Self {
        CancellationToken {
            cancelled: Arc::new(AtomicBool::new(false)),
            force_cancelled: Arc::new(AtomicBool::new(false)),
        }
    }

    /// Asks the operation to stop.
    pub fn cancel(&self) {
        self.cancelled.store(true, Ordering::SeqCst);
    }

    /// Asks that the operation's process be killed.
    pub fn force_cancel(&self) {
        self.force_cancelled.store(true, Ordering::SeqCst);
    }

    /// Whether a stop has been asked for.
    pub fn is_cancelled(&self) -> bool {
        self.cancelled.load(Ordering::SeqCst)
    }

    /// Whether a kill has been asked for.
    pub fn is_force_cancelled(&self) -> bool {
        self.force_cancelled.load(Ordering::SeqCst)
    }
}

} // verus!
