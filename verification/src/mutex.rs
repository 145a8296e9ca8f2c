//! An exclusive-access lock over a protected value, with a three-state atomic
//! word and the wait/wake primitive on the contended path.
//!
//! The word is 0 (unlocked), 1 (locked, nobody waiting) or 2 (locked, other
//! threads may be waiting). The uncontended lock is one compare-and-swap from
//! 0 to 1 with acquire ordering; the uncontended unlock is one swap to 0 with
//! release ordering, and that release/acquire pair is what publishes the
//! protected value from one holder to the next. A contender first spins
//! briefly while the word is 1, hoping the holder is quick, then swaps the
//! word to 2 and parks on it; a swap that brought back 0 means the lock was
//! acquired in that same step. An unlock that brings back 2 wakes one parked
//! thread; one that brings back 1 makes no system call at all — the word went
//! to 2 before any thread parked, so no wakeup can be missed. The transition
//! system is `crate::mutex_model`; at most one thread holds the lock in every
//! reachable state (`lemma_mutual_exclusion` there).

use vstd::prelude::*;

use crate::futex::{futex_wait, futex_wake_one, spin_hint, stall};
use crate::slot::Slot;
use core::sync::atomic::AtomicU32;
use core::sync::atomic::Ordering;

verus! {

/// How many park-and-retry rounds a contender goes through before deciding it
/// cannot be served. Each round includes a system call; the budget is never
/// consumed in practice.
const LOCK_RETRY_BUDGET: u64 = u64::MAX;

/// The word of an unlocked mutex; `crate::mutex_model::unlocked()`.
const UNLOCKED: u32 = 0;

/// The word of a mutex held with nobody waiting; `crate::mutex_model::locked()`.
const LOCKED: u32 = 1;

/// The word of a mutex held while other threads may be waiting;
/// `crate::mutex_model::locked_contended()`.
const LOCKED_CONTENDED: u32 = 2;

/// An exclusive-access lock. `lock` blocks until the calling thread is the
/// only holder and hands out a [`MutexGuard`]; the protected value can be
/// read and written only through the guard, and the lock is released by
/// [`MutexGuard::unlock`].
#[verifier::reject_recursive_types(T)]
pub struct Mutex<T> {
    /// 0: unlocked. 1: locked, no other thread waiting. 2: locked, other
    /// threads may be waiting.
    state: AtomicU32,
    value: Slot<T>,
}

/// Proof that the owning thread holds the lock: the guard owns the protected
/// value for as long as it lives, and [`MutexGuard::unlock`] puts the value
/// back and performs the unlock transition exactly once. A guard that is
/// dropped instead of unlocked leaves the lock held forever and discards the
/// protected value.
#[must_use]
#[verifier::reject_recursive_types(T)]
pub struct MutexGuard<'a, T> {
    /// The lock this guard holds; the condition variable reaches through this
    /// field to release and re-acquire the lock around a wait.
    pub(crate) mutex: &'a Mutex<T>,
    pub(crate) value: T,
}

impl<T> Mutex<T> {
    /// A new unlocked lock protecting `value`.
    pub fn new(value: T) -> Mutex<T> {
        proof {
            // The words this lock drives are the model's values.
            assert(UNLOCKED == crate::mutex_model::unlocked());
            assert(LOCKED == crate::mutex_model::locked());
            assert(LOCKED_CONTENDED == crate::mutex_model::locked_contended());
        }
        Mutex { state: AtomicU32::new(UNLOCKED), value: Slot::new(value) }
    }

    /// Blocks until this thread holds the lock, then hands out the guard
    /// owning the protected value. Fast path: one compare-and-swap from
    /// unlocked to locked-without-waiters.
    pub fn lock(&self) -> (r: MutexGuard<'_, T>)
        ensures
            r.mutex_of() == *self,
    {
        if self.state.compare_exchange(UNLOCKED, LOCKED, Ordering::Acquire, Ordering::Relaxed).is_err() {
            self.lock_contended();
        }
        let value = self.value.take();
        MutexGuard { mutex: self, value }
    }

    /// The contended path. Spins briefly while the word stays 1 — a holder
    /// with no waiters may be about to unlock, and plain loads do not steal
    /// the cache line the holder needs — then tries the fast path once more,
    /// then keeps swapping the word to 2 and parking on it: a swap that
    /// brings back 0 is the acquisition, and the word is left at 2 so the
    /// eventual unlock knows to wake someone.
    fn lock_contended(&self) {
        let mut spin_count: u32 = 0;
        while self.state.load(Ordering::Relaxed) == LOCKED && spin_count < 100
            invariant
                spin_count <= 100,
            decreases 100 - spin_count,
        {
            spin_count = spin_count + 1;
            spin_hint();
        }
        if self.state.compare_exchange(UNLOCKED, LOCKED, Ordering::Acquire, Ordering::Relaxed).is_ok() {
            return ;
        }
        let mut fuel: u64 = LOCK_RETRY_BUDGET;
        while fuel > 0
            decreases fuel,
        {
            fuel = fuel - 1;
            if self.state.swap(LOCKED_CONTENDED, Ordering::Acquire) == UNLOCKED {
                return ;
            }
            futex_wait(&self.state, LOCKED_CONTENDED);
        }
        stall::<()>();
    }
}

impl<'a, T> MutexGuard<'a, T> {
    /// The protected value as the guard holds it now.
    pub closed spec fn view(&self) -> T {
        self.value
    }

    /// The lock this guard holds.
    pub closed spec fn mutex_of(&self) -> Mutex<T> {
        *self.mutex
    }

    /// The lock this guard holds, as a reference: the condition variable
    /// releases and re-acquires the lock through it.
    pub(crate) fn mutex_ref(&self) -> (r: &'a Mutex<T>)
        ensures
            *r == self.mutex_of(),
    {
        self.mutex
    }

    /// Reads the protected value.
    pub fn get(&self) -> (r: &T)
        ensures
            *r == self@,
    {
        &self.value
    }

    /// Overwrites the protected value.
    pub fn set(&mut self, value: T)
        ensures
            final(self)@ == value,
            final(self).mutex_of() == old(self).mutex_of(),
    {
        self.value = value;
    }

    /// Replaces the protected value and hands the previous one out.
    pub fn replace(&mut self, value: T) -> (r: T)
        ensures
            final(self)@ == value,
            r == old(self)@,
            final(self).mutex_of() == old(self).mutex_of(),
    {
        let mut taken = value;
        core::mem::swap(&mut taken, &mut self.value);
        taken
    }

    /// Puts the protected value back and unlocks: one swap of the word to 0
    /// with release ordering, which publishes the value to the next holder.
    /// Only when the word was 2 may a thread be parked, and only then is the
    /// wake system call made.
    pub fn unlock(self) {
        let MutexGuard { mutex, value } = self;
        mutex.value.store(value);
        if mutex.state.swap(UNLOCKED, Ordering::Release) == LOCKED_CONTENDED {
            futex_wake_one(&mutex.state);
        }
    }
}

} // verus!
