//! The condition variable of `crate::condvar`, optimized to skip the wake
//! system call entirely while no thread can be parked.
//!
//! Beside the notification counter there is a waiter count, raised by a
//! waiter before it releases the mutex and lowered after its park returns. A
//! notifier that reads zero waiters makes no system call. The read is safe
//! against the race it seems to invite: a waiter raises the count *before*
//! unlocking the mutex, and the notifier by convention changes the condition
//! *under* the same mutex before notifying, so when the notifier's read sees
//! the count from before the raise, the waiter has not yet unlocked — its
//! later counter read will see the advanced counter, or its park will find
//! the cell changed, and either way it does not sleep past the notification.

use vstd::prelude::*;

use crate::futex::{futex_wait, futex_wake_all, futex_wake_one};
use crate::mutex::MutexGuard;
use core::sync::atomic::AtomicU32;
use core::sync::atomic::AtomicUsize;
use core::sync::atomic::Ordering;

verus! {

/// A condition variable that counts its waiters to elide needless wake calls.
pub struct Condvar {
    /// Advances on every delivered notification; waiters park on this cell.
    counter: AtomicU32,
    /// How many threads are inside `wait` right now; used only to skip the
    /// wake system call when it is zero.
    num_waiters: AtomicUsize,
}

impl Condvar {
    /// A new condition variable with no notifications and no waiters.
    pub fn new() -> Condvar {
        Condvar { counter: AtomicU32::new(0), num_waiters: AtomicUsize::new(0) }
    }

    /// Wakes one parked waiter, if any thread can be waiting at all; with
    /// zero waiters the counter is not even advanced, since there is nobody
    /// whose park it must cut short.
    pub fn notify_one(&self) {
        if self.num_waiters.load(Ordering::Relaxed) > 0 {
            self.counter.fetch_add(1, Ordering::Relaxed);
            futex_wake_one(&self.counter);
        }
    }

    /// Wakes every parked waiter, if any thread can be waiting at all.
    pub fn notify_all(&self) {
        if self.num_waiters.load(Ordering::Relaxed) > 0 {
            self.counter.fetch_add(1, Ordering::Relaxed);
            futex_wake_all(&self.counter);
        }
    }

    /// Releases the guard's mutex, parks until a notification arrives — or
    /// returns at once if one arrived since the counter was read, or
    /// spuriously — and re-acquires the mutex before returning its guard.
    /// The waiter count is raised while the mutex is still held and lowered
    /// before re-acquiring it, so a notifier that sees zero waiters under the
    /// mutex truly has nobody to wake.
    pub fn wait<'a, T>(&self, guard: MutexGuard<'a, T>) -> (r: MutexGuard<'a, T>)
        ensures
            r.mutex_of() == guard.mutex_of(),
    {
        self.num_waiters.fetch_add(1, Ordering::Relaxed);
        let counter_value = self.counter.load(Ordering::Relaxed);
        let mutex = guard.mutex_ref();
        guard.unlock();
        futex_wait(&self.counter, counter_value);
        self.num_waiters.fetch_sub(1, Ordering::Relaxed);
        mutex.lock()
    }
}

} // verus!
