//! Fire-and-forget sender over an unbounded command queue.
//!
//! Administrative callers must be able to push requests without knowing
//! whether the manager loop is still alive, so a send never panics and never
//! surfaces an error: once the counterpart receiver is observed gone, the
//! sender remembers that and every later send is a no-op.
//!
//! The receiver-gone flag is one atomically-observed boolean shared by a
//! sender and all its clones, so the channel is safe for concurrent use by
//! multiple callers and any one failed send silences them all. A shared
//! atomic admits no value reasoning here — what one handle reads depends on
//! every other — so no contract speaks of the flag's value; the decision a
//! send owes, that a failed enqueue means the receiver is gone and the flag
//! becomes (and then stays) set, is taken by [`flag_after_attempt`], whose
//! contract pins it for every outcome, and `send` routes every attempt
//! through it.

use vstd::prelude::*;

use core::sync::atomic::{AtomicBool, Ordering};
use std::sync::Arc;

verus! {

#[verifier::external_type_specification]
#[verifier::external_body]
#[verifier::reject_recursive_types(T)]
pub struct ExUnboundedSender<T>(tokio::sync::mpsc::UnboundedSender<T>);

/// Relies on `tokio::sync::mpsc::UnboundedSender::clone`: the result is
/// another send handle to the same channel. Nothing of that can be said over
/// the opaque handle, so nothing is promised; a `Sender`'s derived clone
/// calls it.
pub assume_specification<T>[ <tokio::sync::mpsc::UnboundedSender<T> as Clone>::clone ](
    tx: &tokio::sync::mpsc::UnboundedSender<T>,
) -> tokio::sync::mpsc::UnboundedSender<T>;

/// Relies on `tokio::sync::mpsc::UnboundedSender::send`: it never blocks
/// (the channel is unbounded) and returns an error exactly when the receive
/// half of the channel has been closed or dropped. Whether that has happened
/// depends on the peer, so nothing is promised of the result.
#[verifier::external_body]
fn unbounded_send_raw<T: Send>(tx: &tokio::sync::mpsc::UnboundedSender<T>, msg: T) -> (delivered: bool) {
    tx.send(msg).is_ok()
}

/// The receiver-gone flag's value after one enqueue attempt, from the value
/// that was read before the attempt and the attempt's outcome: a failed
/// enqueue means the receive half is gone, so the flag becomes — and
/// afterwards stays — set.
pub fn flag_after_attempt(read: bool, delivered: bool) -> (r: bool)
    ensures
        r == (read || !delivered),
{
    read || !delivered
}

/// Wrapper around an unbounded queue's send half, defensively tracking in a
/// shared atomic flag whether the counterpart receiver has disappeared; a
/// clone sends to the same queue and shares the same flag.
#[derive(Debug, Clone)]
#[verifier::reject_recursive_types(T)]
pub struct Sender<T: Send> {
    receiver_dropped: Arc<AtomicBool>,
    tx: tokio::sync::mpsc::UnboundedSender<T>,
}

impl<T: Send> Sender<T> {
    /// The underlying queue handle; sends never replace it.
    pub closed spec fn spec_tx(&self) -> tokio::sync::mpsc::UnboundedSender<T> {
        self.tx
    }

    pub fn new(tx: tokio::sync::mpsc::UnboundedSender<T>) -> (s: Self)
        ensures
            s.spec_tx() == tx,
    {
        Sender { receiver_dropped: Arc::new(AtomicBool::new(false)), tx }
    }

    /// Reads the shared flag. Its value depends on every handle sharing it,
    /// so nothing can be promised of it.
    fn receiver_dropped(&self) -> bool {
        self.receiver_dropped.load(Ordering::SeqCst)
    }

    /// Attempts to enqueue one message. A no-op when the shared flag was
    /// read set; otherwise the flag after the attempt is exactly what
    /// `flag_after_attempt` decides from the outcome, so a failed enqueue
    /// marks the receiver gone — for this sender and every clone — instead
    /// of raising.
    pub fn send(&self, msg: T) {
        let read = self.receiver_dropped();
        if read {
            return ;
        }
        let delivered = unbounded_send_raw(&self.tx, msg);
        if flag_after_attempt(read, delivered) {
            self.receiver_dropped.store(true, Ordering::SeqCst);
        }
    }

    /// Applies the policy of `send` to each message in order, short-circuiting
    /// once the shared flag is observed set.
    pub fn send_many(&self, msgs: Vec<T>) {
        if self.receiver_dropped() {
            return ;
        }
        let mut remaining = msgs;
        while remaining.len() > 0
            decreases remaining.len(),
        {
            let msg = remaining.remove(0);
            self.send(msg);
        }
    }
}

} // verus!
