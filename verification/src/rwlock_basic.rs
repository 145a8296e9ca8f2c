//! A reader-writer lock in its simplest form: the atomic word holds the
//! number of readers, with one distinguished value meaning "write-locked".
//!
//! Any number of readers may hold the lock at once; a writer holds it alone.
//! A reader acquires by a compare-and-swap that raises the count by one, a
//! writer by a compare-and-swap from zero to the write-locked value; both
//! park on the word when they cannot proceed. The last reader to leave wakes
//! one parked thread — only a writer can be parked while readers hold the
//! lock — and a leaving writer wakes everyone, after which readers and
//! writers race for the word. Writers can starve under a steady stream of
//! readers; the fair variant in `crate::rwlock_fair` fixes that. The
//! transition system is the plain half of `crate::rwlock_model`; readers and
//! writers exclude one another in every reachable state
//! (`lemma_exclusion_plain` there).
//!
//! Read guards hold a clone of the protected value — the value cannot move
//! out while other readers share it — so `read` asks for a cloneable value;
//! the one writer holds the value itself.

use vstd::prelude::*;

use crate::futex::{futex_wait, futex_wake_all, futex_wake_one, stall};
use crate::slot::Slot;
use core::sync::atomic::AtomicU32;
use core::sync::atomic::Ordering;

verus! {

/// How many park-and-retry rounds an acquisition goes through before deciding
/// the thread cannot be served; never consumed in practice.
const LOCK_RETRY_BUDGET: u64 = u64::MAX;

/// The word of a write-locked lock; `crate::rwlock_model::write_locked()`.
/// Any smaller word is the reader count.
const WRITE_LOCKED: u32 = u32::MAX;

/// A reader-writer lock: many concurrent readers or one writer.
#[verifier::reject_recursive_types(T)]
pub struct RwLock<T> {
    /// The number of read locks held, or `u32::MAX` if write-locked.
    state: AtomicU32,
    value: Slot<T>,
}

/// Proof that the owning thread holds a read lock, carrying a clone of the
/// protected value as of the moment of acquisition. Released with
/// [`ReadGuard::unlock`]; a guard that is dropped instead keeps its read lock
/// held forever.
#[must_use]
#[verifier::reject_recursive_types(T)]
pub struct ReadGuard<'a, T> {
    rwlock: &'a RwLock<T>,
    value: T,
}

/// Proof that the owning thread holds the write lock: the guard owns the
/// protected value for as long as it lives. Released with
/// [`WriteGuard::unlock`]; a guard that is dropped instead keeps the lock
/// held forever and discards the protected value.
#[must_use]
#[verifier::reject_recursive_types(T)]
pub struct WriteGuard<'a, T> {
    rwlock: &'a RwLock<T>,
    value: T,
}

impl<T> RwLock<T> {
    /// A new unlocked lock protecting `value`.
    pub fn new(value: T) -> RwLock<T> {
        proof {
            // The distinguished word this lock drives is the model's value.
            assert(WRITE_LOCKED == crate::rwlock_model::write_locked());
        }
        RwLock { state: AtomicU32::new(0), value: Slot::new(value) }
    }

    /// Blocks until this thread holds the write lock — the word goes from
    /// zero straight to the write-locked value — and hands out the guard
    /// owning the protected value. While the word holds anything else, the
    /// thread parks on the word with the value it saw.
    pub fn write(&self) -> (r: WriteGuard<'_, T>)
        ensures
            r.rwlock_of() == *self,
    {
        let mut fuel: u64 = LOCK_RETRY_BUDGET;
        while fuel > 0
            decreases fuel,
        {
            fuel = fuel - 1;
            match self.state.compare_exchange(0, WRITE_LOCKED, Ordering::Acquire, Ordering::Relaxed) {
                Ok(_) => {
                    let value = self.value.take();
                    return WriteGuard { rwlock: self, value };
                },
                Err(s) => {
                    futex_wait(&self.state, s);
                },
            }
        }
        stall::<()>();
        let value = self.value.take();
        WriteGuard { rwlock: self, value }
    }
}

impl<T: Clone> RwLock<T> {
    /// Blocks until this thread holds a read lock — the word is below the
    /// write-locked value and the compare-and-swap raises it by one — and
    /// hands out a guard carrying a clone of the protected value. While
    /// write-locked, the thread parks on the word. A word one below the
    /// write-locked value would mean almost 2^32 concurrent readers; rather
    /// than let the count reach the write-locked value, the loop treats that
    /// state as contention and retries.
    pub fn read(&self) -> (r: ReadGuard<'_, T>)
        ensures
            r.rwlock_of() == *self,
    {
        let mut fuel: u64 = LOCK_RETRY_BUDGET;
        while fuel > 0
            decreases fuel,
        {
            fuel = fuel - 1;
            let s = self.state.load(Ordering::Relaxed);
            if s == WRITE_LOCKED {
                futex_wait(&self.state, WRITE_LOCKED);
            } else if s < WRITE_LOCKED - 1 {
                match self.state.compare_exchange_weak(
                    s,
                    s + 1,
                    Ordering::Acquire,
                    Ordering::Relaxed,
                ) {
                    Ok(_) => {
                        let value = self.value.clone_out();
                        return ReadGuard { rwlock: self, value };
                    },
                    Err(_) => {},
                }
            }
        }
        stall::<()>();
        let value = self.value.clone_out();
        ReadGuard { rwlock: self, value }
    }
}

impl<'a, T> ReadGuard<'a, T> {
    /// The protected value, as it was when this read lock was acquired.
    pub closed spec fn view(&self) -> T {
        self.value
    }

    /// The lock this guard holds.
    pub closed spec fn rwlock_of(&self) -> RwLock<T> {
        *self.rwlock
    }

    /// Reads the protected value.
    pub fn get(&self) -> (r: &T)
        ensures
            *r == self@,
    {
        &self.value
    }

    /// Releases this read lock: the word goes down by one. A result of zero
    /// with the release of the last reader means a writer may be parked —
    /// readers never park while readers hold the lock — so one thread is
    /// woken to take the word.
    pub fn unlock(self) {
        if self.rwlock.state.fetch_sub(1, Ordering::Release) == 1 {
            futex_wake_one(&self.rwlock.state);
        }
    }
}

impl<'a, T> WriteGuard<'a, T> {
    /// The protected value as the guard holds it now.
    pub closed spec fn view(&self) -> T {
        self.value
    }

    /// The lock this guard holds.
    pub closed spec fn rwlock_of(&self) -> RwLock<T> {
        *self.rwlock
    }

    /// Reads the protected value.
    pub fn get(&self) -> (r: &T)
        ensures
            *r == self@,
    {
        &self.value
    }

    /// Overwrites the protected value.
    pub fn set(&mut self, value: T)
        ensures
            final(self)@ == value,
            final(self).rwlock_of() == old(self).rwlock_of(),
    {
        self.value = value;
    }

    /// Puts the protected value back and releases the write lock, then wakes
    /// every parked thread: readers and writers race for the word, whoever
    /// was waiting.
    pub fn unlock(self) {
        let WriteGuard { rwlock, value } = self;
        rwlock.value.store(value);
        rwlock.state.store(0, Ordering::Release);
        futex_wake_all(&rwlock.state);
    }
}

} // verus!
