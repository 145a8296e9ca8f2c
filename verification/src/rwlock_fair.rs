//! A reader-writer lock that keeps writers from starving: the atomic word
//! packs the reader count with a "writer waiting" flag, and writers are woken
//! through a separate monotonic counter.
//!
//! When not write-locked, the word is twice the reader count, plus one if a
//! writer is waiting; the all-ones value means write-locked. Readers acquire
//! only on an even word, so a waiting writer's flag stops new readers from
//! joining and the existing ones drain. Readers park on the word; writers
//! park on the separate wake counter, which goes up each time the lock
//! becomes available to a writer — when the last reader leaves with the flag
//! set, and when a writer leaves. Splitting the channels keeps readers and
//! writers from contending on one wait address, and the counter's monotonic
//! growth closes the window between a writer's look at the word and its park:
//! that is `crate::counter_model::lemma_notification_not_missed`. The
//! transition system is the fair half of `crate::rwlock_model`; exclusion is
//! `lemma_exclusion_fair` and the counter's growth is
//! `lemma_wake_counter_monotonic` there.
//!
//! Read guards hold a clone of the protected value, as in
//! `crate::rwlock_basic`; the one writer holds the value itself.

use vstd::prelude::*;

use crate::futex::{futex_wait, futex_wake_all, futex_wake_one, stall};
use crate::slot::Slot;
use core::sync::atomic::AtomicU32;
use core::sync::atomic::Ordering;

verus! {

/// How many park-and-retry rounds an acquisition goes through before deciding
/// the thread cannot be served; never consumed in practice.
const LOCK_RETRY_BUDGET: u64 = u64::MAX;

/// The word of a write-locked lock; `crate::rwlock_model::write_locked()`.
/// Any smaller word is twice the reader count, plus one if a writer waits.
const WRITE_LOCKED: u32 = u32::MAX;

/// A reader-writer lock: many concurrent readers or one writer, with waiting
/// writers taking precedence over new readers.
#[verifier::reject_recursive_types(T)]
pub struct RwLock<T> {
    /// The number of read locks times two, plus one if a writer is waiting;
    /// `u32::MAX` if write-locked. Readers may acquire only while the value
    /// is even and must park while it is odd.
    state: AtomicU32,
    /// Goes up by one whenever the lock becomes available to a waiting
    /// writer; writers park on this counter, not on the word.
    writer_wake_counter: AtomicU32,
    value: Slot<T>,
}

/// Proof that the owning thread holds a read lock, carrying a clone of the
/// protected value as of the moment of acquisition. Released with
/// [`ReadGuard::unlock`]; a guard that is dropped instead keeps its read lock
/// held forever.
#[must_use]
#[verifier::reject_recursive_types(T)]
pub struct ReadGuard<'a, T> {
    rwlock: &'a RwLock<T>,
    value: T,
}

/// Proof that the owning thread holds the write lock: the guard owns the
/// protected value for as long as it lives. Released with
/// [`WriteGuard::unlock`]; a guard that is dropped instead keeps the lock
/// held forever and discards the protected value.
#[must_use]
#[verifier::reject_recursive_types(T)]
pub struct WriteGuard<'a, T> {
    rwlock: &'a RwLock<T>,
    value: T,
}

impl<T> RwLock<T> {
    /// A new unlocked lock protecting `value`.
    pub fn new(value: T) -> RwLock<T> {
        proof {
            // The distinguished word this lock drives is the model's value.
            assert(WRITE_LOCKED == crate::rwlock_model::write_locked());
        }
        RwLock {
            state: AtomicU32::new(0),
            writer_wake_counter: AtomicU32::new(0),
            value: Slot::new(value),
        }
    }

    /// Blocks until this thread holds the write lock, then hands out the
    /// guard owning the protected value. A word of zero or one — no readers,
    /// at most the writer-waiting flag — lets the writer take the lock with
    /// one compare-and-swap to the write-locked value. On any other word the
    /// writer first makes the word odd, stopping new readers, then reads the
    /// wake counter *before* re-checking the word: if the lock frees up
    /// between that check and the park, the counter has moved and the park
    /// returns at once, so the wakeup is not missed.
    pub fn write(&self) -> (r: WriteGuard<'_, T>)
        ensures
            r.rwlock_of() == *self,
    {
        let mut fuel: u64 = LOCK_RETRY_BUDGET;
        while fuel > 0
            decreases fuel,
        {
            fuel = fuel - 1;
            let s = self.state.load(Ordering::Relaxed);
            if s <= 1 {
                match self.state.compare_exchange(
                    s,
                    WRITE_LOCKED,
                    Ordering::Acquire,
                    Ordering::Relaxed,
                ) {
                    Ok(_) => {
                        let value = self.value.take();
                        return WriteGuard { rwlock: self, value };
                    },
                    Err(_) => {},
                }
            } else if s % 2 == 0 {
                // Block new readers by making the word odd; whether this swap
                // wins or loses, the next round re-reads the word. An even
                // word one below the write-locked value — 2^31 − 1 readers,
                // which cannot arise — must not be made odd, or the swap
                // would forge the write-locked word; the bound is the
                // enabling condition of the model's flag-setting step.
                if s < WRITE_LOCKED - 1 {
                    let _ = self.state.compare_exchange(
                        s,
                        s + 1,
                        Ordering::Relaxed,
                        Ordering::Relaxed,
                    );
                }
            } else {
                let wake_count = self.writer_wake_counter.load(Ordering::Acquire);
                let s2 = self.state.load(Ordering::Relaxed);
                if s2 >= 2 {
                    futex_wait(&self.writer_wake_counter, wake_count);
                }
            }
        }
        stall::<()>();
        let value = self.value.take();
        WriteGuard { rwlock: self, value }
    }
}

impl<T: Clone> RwLock<T> {
    /// Blocks until this thread holds a read lock — the word is even, so no
    /// writer holds the lock or waits for it, and the compare-and-swap raises
    /// the reader count by one — and hands out a guard carrying a clone of
    /// the protected value. While the word is odd the thread parks on it. A
    /// word within two of the write-locked value would mean over 2^31
    /// concurrent readers; rather than overflow into the write-locked value,
    /// the loop treats that state as contention and retries.
    pub fn read(&self) -> (r: ReadGuard<'_, T>)
        ensures
            r.rwlock_of() == *self,
    {
        let mut fuel: u64 = LOCK_RETRY_BUDGET;
        while fuel > 0
            decreases fuel,
        {
            fuel = fuel - 1;
            let s = self.state.load(Ordering::Relaxed);
            if s % 2 == 0 {
                if s < WRITE_LOCKED - 2 {
                    match self.state.compare_exchange_weak(
                        s,
                        s + 2,
                        Ordering::Acquire,
                        Ordering::Relaxed,
                    ) {
                        Ok(_) => {
                            let value = self.value.clone_out();
                            return ReadGuard { rwlock: self, value };
                        },
                        Err(_) => {},
                    }
                }
            } else {
                futex_wait(&self.state, s);
            }
        }
        stall::<()>();
        let value = self.value.clone_out();
        ReadGuard { rwlock: self, value }
    }
}

impl<'a, T> ReadGuard<'a, T> {
    /// The protected value, as it was when this read lock was acquired.
    pub closed spec fn view(&self) -> T {
        self.value
    }

    /// The lock this guard holds.
    pub closed spec fn rwlock_of(&self) -> RwLock<T> {
        *self.rwlock
    }

    /// Reads the protected value.
    pub fn get(&self) -> (r: &T)
        ensures
            *r == self@,
    {
        &self.value
    }

    /// Releases this read lock: the word goes down by two. A result showing
    /// "writer waiting, no readers left" means the lock just became available
    /// to a parked writer: the wake counter goes up — so a writer between its
    /// word check and its park does not sleep — and one writer is woken.
    pub fn unlock(self) {
        if self.rwlock.state.fetch_sub(2, Ordering::Release) == 3 {
            self.rwlock.writer_wake_counter.fetch_add(1, Ordering::Release);
            futex_wake_one(&self.rwlock.writer_wake_counter);
        }
    }
}

impl<'a, T> WriteGuard<'a, T> {
    /// The protected value as the guard holds it now.
    pub closed spec fn view(&self) -> T {
        self.value
    }

    /// The lock this guard holds.
    pub closed spec fn rwlock_of(&self) -> RwLock<T> {
        *self.rwlock
    }

    /// Reads the protected value.
    pub fn get(&self) -> (r: &T)
        ensures
            *r == self@,
    {
        &self.value
    }

    /// Overwrites the protected value.
    pub fn set(&mut self, value: T)
        ensures
            final(self)@ == value,
            final(self).rwlock_of() == old(self).rwlock_of(),
    {
        self.value = value;
    }

    /// Puts the protected value back and releases the write lock, then wakes
    /// both channels: one parked writer through the counter, and every reader
    /// parked on the word.
    pub fn unlock(self) {
        let WriteGuard { rwlock, value } = self;
        rwlock.value.store(value);
        rwlock.state.store(0, Ordering::Release);
        rwlock.writer_wake_counter.fetch_add(1, Ordering::Release);
        futex_wake_one(&rwlock.writer_wake_counter);
        futex_wake_all(&rwlock.state);
    }
}

} // verus!
