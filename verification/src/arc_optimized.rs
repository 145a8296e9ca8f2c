//! A shared-ownership pointer with weak companions, optimized so that cloning
//! and releasing strong handles never touches the allocation count: all live
//! strong handles together hold exactly one unit of it.
//!
//! The strong count governs the payload as before. The allocation count now
//! equals the number of weak handles, plus one while any strong handle
//! exists, so `get_mut` must inspect both counters at one instant. It freezes
//! the allocation count at a sentinel with a compare-and-swap from one — so
//! no weak handle exists and none can appear, since `downgrade` spins while
//! it sees the sentinel — then reads the strong count, then releases the
//! sentinel. The uniqueness question this answers is
//! `crate::arc_model::lemma_unique_access`; the payload lifecycle is
//! `crate::arc_model::lemma_payload_destroyed_once`.

use vstd::prelude::*;

use crate::futex::{fence_acquire, spin_hint, stall};
use crate::slot::Slot;
use core::sync::atomic::AtomicUsize;
use core::sync::atomic::Ordering;

verus! {

/// How many rounds `upgrade` and `downgrade` retry their compare-and-swaps
/// before deciding the thread cannot be served; contention this long does not
/// occur in practice.
const RETRY_BUDGET: u64 = u64::MAX;

/// The shared header of one allocation.
#[verifier::reject_recursive_types(T)]
struct ArcInner<T> {
    /// Number of strong handles: the payload is present exactly while this
    /// counter is above zero.
    strong: AtomicUsize,
    /// Number of weak handles, plus one while any strong handle exists; held
    /// at `usize::MAX` for the instants in which `get_mut` inspects both
    /// counters. The header lives while this counter is above zero.
    alloc: AtomicUsize,
    payload: Slot<T>,
}

/// A shared-ownership pointer. Handles must be given back with
/// [`Arc::release`]; the release of the last strong handle destroys the
/// payload and gives up the one allocation unit shared by all strong handles.
#[verifier::reject_recursive_types(T)]
pub struct Arc<T> {
    inner: std::sync::Arc<ArcInner<T>>,
}

/// A handle that observes an allocation without keeping the payload alive.
#[verifier::reject_recursive_types(T)]
pub struct Weak<T> {
    inner: std::sync::Arc<ArcInner<T>>,
}

impl<T> Arc<T> {
    /// True of two strong handles that share one allocation. Spec-value
    /// equality of the shared headers stands in for allocation identity: the
    /// verifier identifies a shared pointer with its contents, and a fresh
    /// header's atomics have unconstrained opaque values, so two distinct
    /// allocations are never provably equal.
    pub closed spec fn is_same_allocation(&self, other: &Arc<T>) -> bool {
        self.inner == other.inner
    }

    /// Makes the first handle to a fresh allocation: one strong handle, and
    /// one allocation unit standing for all strong handles.
    pub fn new(data: T) -> Arc<T> {
        Arc {
            inner: std::sync::Arc::new(
                ArcInner {
                    strong: AtomicUsize::new(1),
                    alloc: AtomicUsize::new(1),
                    payload: Slot::new(data),
                },
            ),
        }
    }

    /// Hands out exclusive access to the payload, exactly when the caller's
    /// handle is the only handle of any kind. Freezing the allocation count
    /// at the sentinel succeeds only from one — no weak handles — and blocks
    /// concurrent `downgrade` calls for the moment in which the strong count
    /// is read; the count of one then means no other strong handle either.
    /// The acquire on the freeze pairs with the release decrement of every
    /// weak handle already given back, and the final fence with the release
    /// decrement of every strong one.
    pub fn get_mut(arc: &mut Self) -> (r: Option<ArcMutGuard<'_, T>>)
        ensures
            r matches Some(g) ==> g.arc().is_same_allocation(&*final(arc)),
            r is None ==> *final(arc) == *old(arc),
    {
        if arc.inner.alloc.compare_exchange(
            1,
            usize::MAX,
            Ordering::Acquire,
            Ordering::Relaxed,
        ).is_err() {
            return None;
        }
        let is_unique = arc.inner.strong.load(Ordering::Relaxed) == 1;
        // Release the sentinel: pairs with the acquire in `downgrade`, so a
        // downgrade that runs after this store also sees every strong-count
        // change that happened before the read above.
        arc.inner.alloc.store(1, Ordering::Release);
        if !is_unique {
            return None;
        }
        fence_acquire();
        let value = arc.inner.payload.take();
        Some(ArcMutGuard { arc: &*arc, value })
    }

    /// Makes a weak handle: one more allocation unit. The loop spins while
    /// `get_mut` holds the count at the sentinel, and retries a failed swap;
    /// the thread parks rather than let the counter pass half of its range.
    pub fn downgrade(arc: &Self) -> (r: Weak<T>)
        ensures
            r.is_allocation_of(arc),
    {
        let mut fuel: u64 = RETRY_BUDGET;
        while fuel > 0
            decreases fuel,
        {
            fuel = fuel - 1;
            let n = arc.inner.alloc.load(Ordering::Relaxed);
            if n == usize::MAX {
                // `get_mut` is inspecting the counters right now; retry.
                spin_hint();
            } else if n > usize::MAX / 2 {
                stall::<()>();
            } else {
                // The acquire pairs with the release of the sentinel in
                // `get_mut`, so this thread sees the counters as that call
                // left them.
                match arc.inner.alloc.compare_exchange_weak(
                    n,
                    n + 1,
                    Ordering::Acquire,
                    Ordering::Relaxed,
                ) {
                    Ok(_) => {
                        return Weak { inner: arc.inner.clone() };
                    },
                    Err(_) => {},
                }
            }
        }
        stall::<()>();
        Weak { inner: arc.inner.clone() }
    }

    /// Gives this strong handle back. The release that brings the strong
    /// count to zero destroys the payload — exactly once over the
    /// allocation's whole history — and then gives up the one allocation
    /// unit that stood for all strong handles.
    pub fn release(self) {
        if self.inner.strong.fetch_sub(1, Ordering::Release) == 1 {
            fence_acquire();
            let payload = self.inner.payload.take();
            let _ = payload;
            if self.inner.alloc.fetch_sub(1, Ordering::Release) == 1 {
                fence_acquire();
            }
        }
    }
}

impl<T: Clone> Arc<T> {
    /// Clones the payload out. Safe on any live strong handle: the payload
    /// is present while the strong count is above zero.
    pub fn get(&self) -> T {
        self.inner.payload.clone_out()
    }
}

impl<T> Clone for Arc<T> {
    /// A new strong handle: one more unit of the strong count and — this is
    /// the optimization — no touch of the allocation count. The thread parks
    /// rather than let the counter pass half of its range.
    fn clone(&self) -> (r: Self)
        ensures
            r.is_same_allocation(self),
    {
        if self.inner.strong.fetch_add(1, Ordering::Relaxed) > usize::MAX / 2 {
            stall::<()>();
        }
        Arc { inner: self.inner.clone() }
    }
}

impl<T> Weak<T> {
    /// True of two weak handles that share one allocation; header equality
    /// stands in for allocation identity, as in [`Arc::is_same_allocation`].
    pub closed spec fn is_same_allocation(&self, other: &Weak<T>) -> bool {
        self.inner == other.inner
    }

    /// True when this weak handle observes the allocation that `arc` owns a
    /// share of; header equality stands in for allocation identity, as in
    /// [`Arc::is_same_allocation`].
    pub closed spec fn is_allocation_of(&self, arc: &Arc<T>) -> bool {
        self.inner == arc.inner
    }

    /// Tries to recover a strong handle: succeeds exactly while some strong
    /// handle exists at the instant of the decisive compare-and-swap, and
    /// leaves the allocation count alone — the new strong handle shares the
    /// unit that all strong handles hold. Gives up only on a strong count of
    /// zero, which no later operation can revive.
    pub fn upgrade(&self) -> (r: Option<Arc<T>>)
        ensures
            r matches Some(a) ==> self.is_allocation_of(&a),
    {
        let mut n = self.inner.strong.load(Ordering::Relaxed);
        let mut fuel: u64 = RETRY_BUDGET;
        while fuel > 0
            decreases fuel,
        {
            fuel = fuel - 1;
            if n == 0 {
                return None;
            }
            if n > usize::MAX / 2 {
                stall::<()>();
            } else {
                match self.inner.strong.compare_exchange_weak(
                    n,
                    n + 1,
                    Ordering::Relaxed,
                    Ordering::Relaxed,
                ) {
                    Ok(_) => {
                        return Some(Arc { inner: self.inner.clone() });
                    },
                    Err(e) => {
                        n = e;
                    },
                }
            }
        }
        stall::<()>();
        None
    }

    /// Gives this weak handle back: one unit of the allocation count. The
    /// header itself is freed with the release of the last unit.
    pub fn release(self) {
        if self.inner.alloc.fetch_sub(1, Ordering::Release) == 1 {
            fence_acquire();
        }
    }
}

impl<T> Clone for Weak<T> {
    /// A new weak handle: one more unit of the allocation count. The thread
    /// parks rather than let the counter pass half of its range.
    fn clone(&self) -> (r: Self)
        ensures
            r.is_same_allocation(self),
    {
        if self.inner.alloc.fetch_add(1, Ordering::Relaxed) > usize::MAX / 2 {
            stall::<()>();
        }
        Weak { inner: self.inner.clone() }
    }
}

/// Exclusive access to the payload of a uniquely held [`Arc`]. The guard owns
/// the payload for its lifetime; [`ArcMutGuard::release`] puts the (possibly
/// replaced) payload back into the allocation. A guard that is dropped
/// instead discards the payload.
#[must_use]
#[verifier::reject_recursive_types(T)]
pub struct ArcMutGuard<'a, T> {
    arc: &'a Arc<T>,
    value: T,
}

impl<'a, T> ArcMutGuard<'a, T> {
    /// The payload as the guard holds it now.
    pub closed spec fn view(&self) -> T {
        self.value
    }

    /// The handle this guard was taken from.
    pub closed spec fn arc(&self) -> Arc<T> {
        *self.arc
    }

    /// Reads the payload.
    pub fn get(&self) -> (r: &T)
        ensures
            *r == self@,
    {
        &self.value
    }

    /// Overwrites the payload.
    pub fn set(&mut self, value: T)
        ensures
            final(self)@ == value,
            final(self).arc() == old(self).arc(),
    {
        self.value = value;
    }

    /// Puts the payload back into the allocation and ends the exclusive
    /// access.
    pub fn release(self) {
        self.arc.inner.payload.store(self.value);
    }
}

} // verus!
