//! A shared-ownership pointer over an immutable payload, in its simplest
//! form: one atomic reference counter and no weak handles.
//!
//! Every handle to one allocation shares a header holding the counter and the
//! payload. `clone` increments the counter with relaxed ordering: increments
//! need no ordering of their own, because the only operation that must
//! observe all of them is the final decrement. `release` decrements with
//! release ordering, and the handle that brings the counter to zero issues an
//! acquire fence — pairing with every earlier release decrement — before it
//! destroys the payload, so the payload is destroyed exactly once, after all
//! other handles are gone. The counting discipline is the model of
//! `crate::arc_model` with no weak handles; see `lemma_payload_destroyed_once`
//! there.

use vstd::prelude::*;

use crate::futex::{fence_acquire, stall};
use crate::slot::Slot;
use core::sync::atomic::AtomicUsize;
use core::sync::atomic::Ordering;

verus! {

/// The shared header: the number of live handles, and the payload.
#[verifier::reject_recursive_types(T)]
struct ArcInner<T> {
    /// Number of `Arc` handles. The payload is present exactly while this
    /// counter is above zero.
    count: AtomicUsize,
    payload: Slot<T>,
}

/// A shared-ownership pointer. Handles are created with [`Arc::new`] and
/// [`Clone::clone`], and every handle must be given back with
/// [`Arc::release`]: the handle whose release brings the count to zero
/// destroys the payload.
#[verifier::reject_recursive_types(T)]
pub struct Arc<T> {
    inner: std::sync::Arc<ArcInner<T>>,
}

impl<T> Arc<T> {
    /// True of two handles that share one allocation. Spec-value equality of
    /// the shared headers stands in for allocation identity: the verifier
    /// identifies a shared pointer with its contents, and a fresh header's
    /// atomics have unconstrained opaque values, so two distinct allocations
    /// are never provably equal.
    pub closed spec fn is_same_allocation(&self, other: &Arc<T>) -> bool {
        self.inner == other.inner
    }

    /// Makes the first handle to a fresh allocation, with the counter at one
    /// and the payload present.
    pub fn new(data: T) -> Arc<T> {
        Arc {
            inner: std::sync::Arc::new(
                ArcInner { count: AtomicUsize::new(1), payload: Slot::new(data) },
            ),
        }
    }

    /// Hands out exclusive access to the payload, exactly when the caller's
    /// handle is the only one. The count cannot grow concurrently here — each
    /// clone call needs some existing handle, and the only handle is
    /// exclusively borrowed by the caller — so a count of one settles
    /// uniqueness. The acquire fence pairs with the release decrement of
    /// every handle already given back, so the exclusive access sees all
    /// their writes.
    pub fn get_mut(arc: &mut Self) -> (r: Option<ArcMutGuard<'_, T>>)
        ensures
            r matches Some(g) ==> g.arc().is_same_allocation(&*final(arc)),
            r is None ==> *final(arc) == *old(arc),
    {
        if arc.inner.count.load(Ordering::Relaxed) == 1 {
            fence_acquire();
            let value = arc.inner.payload.take();
            Some(ArcMutGuard { arc: &*arc, value })
        } else {
            None
        }
    }
}

impl<T: Clone> Arc<T> {
    /// Clones the payload out. Safe on any live handle: the payload is
    /// present while at least one handle exists.
    pub fn get(&self) -> T {
        self.inner.payload.clone_out()
    }
}

impl<T> Arc<T> {
    /// Gives this handle back. The handle that brings the count to zero — no
    /// handle is left, so no new clone can appear — destroys the payload,
    /// once: the model fact is `crate::arc_model::lemma_payload_destroyed_once`.
    pub fn release(self) {
        if self.inner.count.fetch_sub(1, Ordering::Release) == 1 {
            fence_acquire();
            let payload = self.inner.payload.take();
            let _ = payload;
        }
    }
}

impl<T> Clone for Arc<T> {
    /// A new handle to the same allocation: increments the count. A count
    /// beyond half of its range would mean more handles than any real
    /// program can hold; the thread parks instead of letting the counter
    /// overflow.
    fn clone(&self) -> (r: Self)
        ensures
            r.is_same_allocation(self),
    {
        if self.inner.count.fetch_add(1, Ordering::Relaxed) > usize::MAX / 2 {
            stall::<()>();
        }
        Arc { inner: self.inner.clone() }
    }
}

/// Exclusive access to the payload of a uniquely held [`Arc`]. The guard owns
/// the payload for its lifetime; [`ArcMutGuard::release`] puts the (possibly
/// replaced) payload back into the allocation. A guard that is dropped
/// instead discards the payload.
#[must_use]
#[verifier::reject_recursive_types(T)]
pub struct ArcMutGuard<'a, T> {
    arc: &'a Arc<T>,
    value: T,
}

impl<'a, T> ArcMutGuard<'a, T> {
    /// The payload as the guard holds it now.
    pub closed spec fn view(&self) -> T {
        self.value
    }

    /// The handle this guard was taken from.
    pub closed spec fn arc(&self) -> Arc<T> {
        *self.arc
    }

    /// Reads the payload.
    pub fn get(&self) -> (r: &T)
        ensures
            *r == self@,
    {
        &self.value
    }

    /// Overwrites the payload.
    pub fn set(&mut self, value: T)
        ensures
            final(self)@ == value,
            final(self).arc() == old(self).arc(),
    {
        self.value = value;
    }

    /// Puts the payload back into the allocation and ends the exclusive
    /// access.
    pub fn release(self) {
        self.arc.inner.payload.store(self.value);
    }
}

} // verus!
