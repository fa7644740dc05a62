//! The wake/sleep handshake between producers and the consumer.
//!
//! A [`Parker`] pairs a condition variable with a monotone epoch counter.
//! A producer bumps the epoch after it has changed the shared state and
//! released the lock; the consumer records the epoch before it inspects the
//! shared state, and sleeps until the epoch moves past what it recorded.
//! Because a bump between the consumer's observation and its sleep ends the
//! sleep at once, no wake-up can be missed.
//!
//! The epoch says nothing about the shared state itself: it only orders
//! "something changed" events. Every claim about queue contents lives in
//! the verified code that holds the channel's lock.

use std::sync::atomic::AtomicU64;
use std::sync::atomic::Ordering;
use std::sync::Condvar;
use std::sync::Mutex;
use vstd::prelude::*;

verus! {

#[verifier::external_type_specification]
#[verifier::external_body]
pub struct ExCondvar(Condvar);

#[verifier::external_type_specification]
#[verifier::external_body]
#[verifier::reject_recursive_types(T)]
pub struct ExMutex<T: ?Sized>(Mutex<T>);

/// Relies on std's `Mutex::new`: wraps a value in a fresh, unlocked mutex.
pub assume_specification<T>[ Mutex::<T>::new ](t: T) -> Mutex<T>;

/// Relies on std's `Condvar::new`: a fresh condition variable with nobody
/// waiting on it.
pub assume_specification[ Condvar::new ]() -> Condvar;

/// The signal half of the channel. The mutex guards nothing but the sleep
/// itself; the epoch is read and advanced atomically.
pub(crate) struct Parker {
    epoch: AtomicU64,
    sleep: Mutex<()>,
    wake: Condvar,
}

impl Parker {
    /// A parker nobody has signalled yet.
    pub(crate) fn new() -> Parker {
        Parker { epoch: AtomicU64::new(0), sleep: Mutex::new(()), wake: Condvar::new() }
    }

    /// The epoch as of this call. Another thread may advance it at any
    /// moment, so nothing is promised of the value; the consumer uses it
    /// only as the point past which [`Parker::wait_past`] will wait.
    pub(crate) fn observe(&self) -> u64 {
        self.epoch.load(Ordering::SeqCst)
    }

    /// Announce a change: advance the epoch, then pass once through the
    /// sleep mutex, so a consumer caught between its last observation and
    /// its sleep cannot miss the bump, then wake every sleeper.
    pub(crate) fn bump(&self) {
        self.epoch.fetch_add(1, Ordering::SeqCst);
        self.pass_sleep_mutex();
        self.wake_all();
    }

    /// Relies on std's `Mutex::lock`: the call returns only once no sleeper
    /// is between its last epoch observation and its wait. A poisoned sleep
    /// mutex makes the call panic, as the channel's invariants cannot be
    /// trusted after a thread failed inside the signal path.
    #[verifier::external_body]
    fn pass_sleep_mutex(&self) {
        drop(self.sleep.lock().unwrap());
    }

    /// Relies on std's `Condvar::notify_all`: every thread blocked on the
    /// condition variable wakes up.
    #[verifier::external_body]
    fn wake_all(&self) {
        self.wake.notify_all();
    }

    /// Sleep until the epoch exceeds `seen`, and return the epoch that ended
    /// the sleep. The returned value therefore always lies strictly past
    /// `seen`; with `seen` at the counter's maximum the call would need more
    /// bumps than any machine can make, and simply never returns.
    ///
    /// Relies on std's `Mutex::lock`, `Condvar::wait` and `AtomicU64::load`:
    /// `wait` atomically releases the sleep mutex and sleeps, may wake
    /// spuriously, and re-acquires it before returning, so the loop tests
    /// its condition again after every wake-up. A poisoned sleep mutex
    /// makes the call panic, as for [`Parker::bump`].
    #[verifier::external_body]
    pub(crate) fn wait_past(&self, seen: u64) -> (now: u64)
        ensures
            now > seen,
    {
        let mut guard = self.sleep.lock().unwrap();
        let mut now = self.epoch.load(Ordering::SeqCst);
        while now <= seen {
            guard = self.wake.wait(guard).unwrap();
            now = self.epoch.load(Ordering::SeqCst);
        }
        now
    }
}

} // verus!
