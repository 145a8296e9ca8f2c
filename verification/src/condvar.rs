//! A condition variable: lets a thread release a mutex and park until
//! notified, without any window in which a notification can be lost.
//!
//! The whole state is one monotonically advancing notification counter. A
//! waiter reads the counter while it still holds the mutex, releases the
//! mutex, and parks on the counter cell with the value it read: if a
//! notification — which increments the counter — came in between, the cell no
//! longer holds that value and the park returns at once instead of sleeping
//! past the notification. That closes the classic missed-wakeup race; the
//! arithmetic fact is `crate::counter_model::lemma_notification_not_missed`.
//! The counter read needs no ordering of its own, because the mutex's own
//! release/acquire pair around it already orders it against the notifier,
//! which by convention changes the waited-on condition under the same mutex.
//!
//! A wait can end spuriously, and one notification can resume several
//! waiters, so every caller re-checks its condition in a loop around `wait`.

use vstd::prelude::*;

use crate::futex::{futex_wait, futex_wake_all, futex_wake_one};
use crate::mutex::MutexGuard;
use core::sync::atomic::AtomicU32;
use core::sync::atomic::Ordering;

verus! {

/// A condition variable. One value works with any number of mutexes, though
/// a waited-on condition should be protected by a single mutex.
pub struct Condvar {
    /// Advances on every notification; waiters park on this cell. The
    /// counter wraps around: a waiter could miss a wakeup only if exactly a
    /// multiple of 2^32 notifications fired inside its tiny read-to-park
    /// window, which does not happen.
    notify_events: AtomicU32,
}

impl Condvar {
    /// A new condition variable with no notifications yet.
    pub fn new() -> Condvar {
        Condvar { notify_events: AtomicU32::new(0) }
    }

    /// Advances the counter and wakes one parked waiter, if any thread is
    /// parked. A waiter between its counter read and its park is not parked
    /// yet, but the advanced counter keeps its park from sleeping.
    pub fn notify_one(&self) {
        self.notify_events.fetch_add(1, Ordering::Relaxed);
        futex_wake_one(&self.notify_events);
    }

    /// Advances the counter and wakes every parked waiter.
    pub fn notify_all(&self) {
        self.notify_events.fetch_add(1, Ordering::Relaxed);
        futex_wake_all(&self.notify_events);
    }

    /// Releases the guard's mutex, parks until a notification arrives — or
    /// returns at once if one arrived since the counter was read, or
    /// spuriously — and re-acquires the mutex before returning its guard.
    pub fn wait<'a, T>(&self, guard: MutexGuard<'a, T>) -> (r: MutexGuard<'a, T>)
        ensures
            r.mutex_of() == guard.mutex_of(),
    {
        let counter_value = self.notify_events.load(Ordering::Relaxed);
        let mutex = guard.mutex_ref();
        guard.unlock();
        futex_wait(&self.notify_events, counter_value);
        mutex.lock()
    }
}

} // verus!
