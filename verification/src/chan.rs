//! The channel handles: [`Sender`], [`Receiver`] and the [`channel`]
//! factory.
//!
//! Both handles share one reference-counted block holding the protocol
//! state behind a lock and the parker that wakes a sleeping consumer. Every
//! mutation of the state happens through the verified operations of
//! [`Inner`], between acquiring and releasing the lock; the parker is
//! signalled only after the lock has been released.

use crate::park::Parker;
use crate::state::Inner;
use crate::state::RecvStep;
use std::collections::VecDeque;
use std::sync::Arc;
use vstd::prelude::*;
use vstd::rwlock::RwLock;
use vstd::rwlock::RwLockPredicate;

verus! {

/// The lock's invariant: any queue and any producer count may sit in it.
/// The lock serves mutual exclusion alone; the channel's guarantees are
/// stated on the operations performed under it.
pub struct AnyState;

impl<T> RwLockPredicate<Inner<T>> for AnyState {
    open spec fn inv(self, v: Inner<T>) -> bool {
        true
    }
}

/// The block all handles of one channel share.
struct Shared<T> {
    /// The queue and producer count, behind the channel's one lock.
    state: RwLock<Inner<T>, AnyState>,
    /// Wakes a consumer sleeping on an empty queue.
    parker: Parker,
}

/// Relies on std's `Arc::clone`: the returned handle refers to the same
/// shared block as `a`.
#[verifier::external_body]
fn share<T>(a: &Arc<Shared<T>>) -> (r: Arc<Shared<T>>)
    ensures
        r == *a,
{
    Arc::clone(a)
}

/// A producer handle. Cloning it registers one more live producer; dropping
/// it deregisters one, and dropping the last wakes the consumer so that a
/// sleeper observes the close.
pub struct Sender<T> {
    shared: Arc<Shared<T>>,
}

impl<T> Sender<T> {
    /// True when this producer enqueues into the channel `r` consumes.
    pub closed spec fn feeds(self, r: Receiver<T>) -> bool {
        self.shared == r.shared
    }

    /// True when both producers enqueue into one channel.
    pub closed spec fn same_channel(self, other: Sender<T>) -> bool {
        self.shared == other.shared
    }

    /// Enqueue `t` behind every item already pending: append under the
    /// lock, release the lock, then signal the consumer. Never blocks and
    /// never fails; whether the item is ever observed depends on the
    /// receiver, not on this call.
    pub fn send(&mut self, t: T)
        ensures
            final (self).same_channel(*old(self)),
    {
        let (mut inner, handle) = self.shared.state.acquire_write();
        inner.push_item(t);
        handle.release_write(inner);
        self.shared.parker.bump();
    }

    /// Deregister this producer under the lock and, when it was the last
    /// one, signal the consumer after releasing the lock — the close must
    /// be seen even when nothing was ever sent.
    fn release(&self) {
        let (mut inner, handle) = self.shared.state.acquire_write();
        let last = inner.remove_sender();
        handle.release_write(inner);
        if last {
            self.shared.parker.bump();
        }
    }
}

impl<T> Clone for Sender<T> {
    /// A new handle to the same channel. The producer count goes up by one
    /// under the same lock that drops take, so no concurrent drop can
    /// observe a spurious count of zero.
    fn clone(&self) -> (r: Self)
        ensures
            r.same_channel(*self),
    {
        let (mut inner, handle) = self.shared.state.acquire_write();
        inner.add_sender();
        handle.release_write(inner);
        Sender { shared: share(&self.shared) }
    }
}

impl<T> Drop for Sender<T> {
    /// Verus does not look into a destructor that takes a lock, so the body
    /// is kept to one call into the verified release path.
    #[verifier::external_body]
    fn drop(&mut self)
        opens_invariants none
        no_unwind
    {
        self.release();
    }
}

/// The single consumer handle. It owns a private buffer of items already
/// taken out of the shared queue; the buffer is served first, oldest item
/// first, with no locking at all.
pub struct Receiver<T> {
    shared: Arc<Shared<T>>,
    buffer: VecDeque<T>,
}

impl<T> View for Receiver<T> {
    type V = Seq<T>;

    /// The items this receiver has already drained out of the shared queue
    /// and not yet handed out, oldest first.
    closed spec fn view(&self) -> Seq<T> {
        self.buffer@
    }
}

impl<T> Receiver<T> {
    /// True when both handles consume one channel.
    pub closed spec fn same_channel(self, other: Receiver<T>) -> bool {
        self.shared == other.shared
    }

    /// Take the next item. The private buffer is served first; otherwise
    /// the shared queue is inspected under the lock, and on a delivery the
    /// whole remainder of the queue moves into the buffer in one exchange,
    /// so bursts are drained under a single lock acquisition. When queue
    /// and buffer are empty the call sleeps while a producer is alive, and
    /// returns `None` exactly when the channel is closed: no producer left
    /// and nothing pending — a terminal state. Each locked inspection
    /// decides as [`crate::step_spec`] says, and the crate's delivery laws
    /// are stated over that same function.
    pub fn recv(&mut self) -> (r: Option<T>)
        ensures
            final (self).same_channel(*old(self)),
            old(self)@.len() > 0 ==> r == Some(old(self)@[0]) && final (self)@ == old(
                self,
            )@.drop_first(),
            r is None ==> old(self)@.len() == 0 && final (self)@.len() == 0,
    {
        if self.buffer.len() > 0 {
            return self.buffer.pop_front();
        }
        let mut seen: u64 = self.shared.parker.observe();
        loop
            invariant
                old(self)@.len() == 0,
                self.buffer@.len() == 0,
                self.shared == old(self).shared,
            decreases u64::MAX - seen,
        {
            let (mut inner, handle) = self.shared.state.acquire_write();
            let step = inner.take_step(&mut self.buffer);
            handle.release_write(inner);
            match step {
                RecvStep::Ready(t) => { return Some(t); },
                RecvStep::Closed => { return None; },
                RecvStep::Pending => { seen = self.shared.parker.wait_past(seen); },
            }
        }
    }

    /// The sequence view of the consumer: each call yields the next item,
    /// and the first `None` marks the end for good — later calls keep
    /// returning `None`.
    pub fn next(&mut self) -> (r: Option<T>)
        ensures
            final (self).same_channel(*old(self)),
            old(self)@.len() > 0 ==> r == Some(old(self)@[0]) && final (self)@ == old(
                self,
            )@.drop_first(),
            r is None ==> old(self)@.len() == 0 && final (self)@.len() == 0,
    {
        self.recv()
    }
}

/// A fresh channel: one producer handle and the single consumer handle,
/// sharing an empty queue and a producer count of one.
pub fn channel<T>() -> (r: (Sender<T>, Receiver<T>))
    ensures
        r.0.feeds(r.1),
        r.1@ == Seq::<T>::empty(),
{
    let shared = Arc::new(
        Shared { state: RwLock::new(Inner::new(), Ghost(AnyState)), parker: Parker::new() },
    );
    let sender = Sender { shared: share(&shared) };
    let receiver = Receiver { shared, buffer: VecDeque::new() };
    (sender, receiver)
}

} // verus!
