//! A shared-ownership pointer with weak companions, in the plain two-counter
//! form: every handle, strong or weak, holds one unit of the allocation
//! count, and a strong handle is built on top of a weak one.
//!
//! The strong count governs the payload: the release that brings it to zero
//! destroys the payload, while weak handles keep only the header alive. The
//! allocation count equals strong plus weak handles, so a single load of it
//! settles the uniqueness question that `get_mut` asks — the model fact is
//! `crate::arc_model::lemma_unique_access_combined`. `upgrade` takes the
//! strong count from `n` to `n + 1` only through a compare-and-swap that has
//! seen `n > 0`, so no payload is ever handed out after the last strong
//! release — `crate::arc_model::lemma_strong_zero_is_forever`.

use vstd::prelude::*;

use crate::futex::{fence_acquire, stall};
use crate::slot::Slot;
use core::sync::atomic::AtomicUsize;
use core::sync::atomic::Ordering;

verus! {

/// How many times `upgrade` retries its compare-and-swap before deciding the
/// thread cannot be served; contention this long does not occur in practice.
const UPGRADE_RETRY_BUDGET: u64 = u64::MAX;

/// The shared header of one allocation.
#[verifier::reject_recursive_types(T)]
struct ArcInner<T> {
    /// Number of strong handles: the payload is present exactly while this
    /// counter is above zero.
    strong: AtomicUsize,
    /// Number of strong and weak handles together: the header lives while
    /// this counter is above zero.
    alloc: AtomicUsize,
    payload: Slot<T>,
}

/// A handle that observes an allocation without keeping the payload alive.
/// It can be cloned and released freely, and can try to recover a strong
/// handle with [`Weak::upgrade`].
#[verifier::reject_recursive_types(T)]
pub struct Weak<T> {
    inner: std::sync::Arc<ArcInner<T>>,
}

/// A shared-ownership pointer: a weak handle plus one unit of the strong
/// count. Handles must be given back with [`Arc::release`] and
/// [`Weak::release`]; the release of the last strong handle destroys the
/// payload.
#[verifier::reject_recursive_types(T)]
pub struct Arc<T> {
    weak: Weak<T>,
}

impl<T> Weak<T> {
    /// True of two weak handles that share one allocation; header equality
    /// stands in for allocation identity, as in [`Arc::is_same_allocation`].
    pub closed spec fn is_same_allocation(&self, other: &Weak<T>) -> bool {
        self.inner == other.inner
    }

    /// True when this weak handle observes the allocation that `arc` owns a
    /// share of; header equality stands in for allocation identity, as in
    /// [`Arc::is_same_allocation`].
    pub closed spec fn is_allocation_of(&self, arc: &Arc<T>) -> bool {
        self.inner == arc.weak.inner
    }

    /// Tries to recover a strong handle: succeeds exactly while some strong
    /// handle exists at the instant of the decisive compare-and-swap. The
    /// loop re-reads the strong count after every failed swap and gives up
    /// only on a count of zero, which no later operation can revive.
    pub fn upgrade(&self) -> (r: Option<Arc<T>>)
        ensures
            r matches Some(a) ==> self.is_allocation_of(&a),
    {
        let mut n = self.inner.strong.load(Ordering::Relaxed);
        let mut fuel: u64 = UPGRADE_RETRY_BUDGET;
        while fuel > 0
            decreases fuel,
        {
            fuel = fuel - 1;
            if n == 0 {
                return None;
            }
            if n > usize::MAX / 2 {
                stall::<()>();
            } else {
                match self.inner.strong.compare_exchange_weak(
                    n,
                    n + 1,
                    Ordering::Relaxed,
                    Ordering::Relaxed,
                ) {
                    Ok(_) => {
                        return Some(Arc { weak: self.clone() });
                    },
                    Err(e) => {
                        n = e;
                    },
                }
            }
        }
        stall::<()>();
        None
    }

    /// Gives this weak handle back: one unit of the allocation count. The
    /// header itself is freed with the release of the last unit; the acquire
    /// fence pairs with every earlier release decrement, so the freeing
    /// thread sees all of them.
    pub fn release(self) {
        if self.inner.alloc.fetch_sub(1, Ordering::Release) == 1 {
            fence_acquire();
        }
    }
}

impl<T> Clone for Weak<T> {
    /// A new weak handle to the same allocation: one more unit of the
    /// allocation count. A count beyond half of its range would mean more
    /// handles than any real program can hold; the thread parks instead of
    /// letting the counter overflow.
    fn clone(&self) -> (r: Self)
        ensures
            r.is_same_allocation(self),
    {
        if self.inner.alloc.fetch_add(1, Ordering::Relaxed) > usize::MAX / 2 {
            stall::<()>();
        }
        Weak { inner: self.inner.clone() }
    }
}

impl<T> Arc<T> {
    /// True of two strong handles that share one allocation. Spec-value
    /// equality of the shared headers stands in for allocation identity: the
    /// verifier identifies a shared pointer with its contents, and a fresh
    /// header's atomics have unconstrained opaque values, so two distinct
    /// allocations are never provably equal.
    pub closed spec fn is_same_allocation(&self, other: &Arc<T>) -> bool {
        self.weak.inner == other.weak.inner
    }

    /// Makes the first handle to a fresh allocation: strong and allocation
    /// counts both start at one, and the payload is present.
    pub fn new(data: T) -> Arc<T> {
        Arc {
            weak: Weak {
                inner: std::sync::Arc::new(
                    ArcInner {
                        strong: AtomicUsize::new(1),
                        alloc: AtomicUsize::new(1),
                        payload: Slot::new(data),
                    },
                ),
            },
        }
    }

    /// Hands out exclusive access to the payload, exactly when the caller's
    /// handle is the only handle of any kind: the allocation count is one.
    /// The count cannot grow concurrently — every clone, downgrade or upgrade
    /// call needs some existing handle, and the only handle is exclusively
    /// borrowed by the caller. The acquire fence pairs with the release
    /// decrement of every handle already given back.
    pub fn get_mut(arc: &mut Self) -> (r: Option<ArcMutGuard<'_, T>>)
        ensures
            r matches Some(g) ==> g.arc().is_same_allocation(&*final(arc)),
            r is None ==> *final(arc) == *old(arc),
    {
        if arc.weak.inner.alloc.load(Ordering::Relaxed) == 1 {
            fence_acquire();
            let value = arc.weak.inner.payload.take();
            Some(ArcMutGuard { arc: &*arc, value })
        } else {
            None
        }
    }

    /// Makes a weak handle to this allocation: a clone of the weak handle
    /// this strong handle is built on.
    pub fn downgrade(arc: &Self) -> (r: Weak<T>)
        ensures
            r.is_allocation_of(arc),
    {
        arc.weak.clone()
    }

    /// Gives this strong handle back. The release that brings the strong
    /// count to zero destroys the payload — exactly once over the
    /// allocation's whole history, the model fact being
    /// `crate::arc_model::lemma_payload_destroyed_once` — and then gives back
    /// the weak handle it was built on.
    pub fn release(self) {
        let Arc { weak } = self;
        if weak.inner.strong.fetch_sub(1, Ordering::Release) == 1 {
            fence_acquire();
            let payload = weak.inner.payload.take();
            let _ = payload;
        }
        weak.release();
    }
}

impl<T: Clone> Arc<T> {
    /// Clones the payload out. Safe on any live strong handle: the payload
    /// is present while the strong count is above zero.
    pub fn get(&self) -> T {
        self.weak.inner.payload.clone_out()
    }
}

impl<T> Clone for Arc<T> {
    /// A new strong handle: one more unit of both counters. The thread parks
    /// rather than let either counter pass half of its range.
    fn clone(&self) -> (r: Self)
        ensures
            r.is_same_allocation(self),
    {
        let weak = self.weak.clone();
        if weak.inner.strong.fetch_add(1, Ordering::Relaxed) > usize::MAX / 2 {
            stall::<()>();
        }
        Arc { weak }
    }
}

/// Exclusive access to the payload of a uniquely held [`Arc`]. The guard owns
/// the payload for its lifetime; [`ArcMutGuard::release`] puts the (possibly
/// replaced) payload back into the allocation. A guard that is dropped
/// instead discards the payload.
#[must_use]
#[verifier::reject_recursive_types(T)]
pub struct ArcMutGuard<'a, T> {
    arc: &'a Arc<T>,
    value: T,
}

impl<'a, T> ArcMutGuard<'a, T> {
    /// The payload as the guard holds it now.
    pub closed spec fn view(&self) -> T {
        self.value
    }

    /// The handle this guard was taken from.
    pub closed spec fn arc(&self) -> Arc<T> {
        *self.arc
    }

    /// Reads the payload.
    pub fn get(&self) -> (r: &T)
        ensures
            *r == self@,
    {
        &self.value
    }

    /// Overwrites the payload.
    pub fn set(&mut self, value: T)
        ensures
            final(self)@ == value,
            final(self).arc() == old(self).arc(),
    {
        self.value = value;
    }

    /// Puts the payload back into the allocation and ends the exclusive
    /// access.
    pub fn release(self) {
        self.arc.weak.inner.payload.store(self.value);
    }
}

} // verus!
