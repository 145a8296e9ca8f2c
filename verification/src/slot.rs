//! Shared storage for a protected value.
//!
//! A `Slot<T>` holds at most one `T` and can be read, filled and emptied
//! through a shared reference. Mutation through a shared handle needs a cell
//! with interior mutability, which only unverified code can provide, so the
//! storage is a runtime-checked cell from the `atomic_refcell` crate, behind
//! trusted wrappers. The locks and counters around a slot guarantee that the
//! runtime check never actually fails; the wrappers nevertheless use the
//! cell's fallible `try_*` calls, so that this crate adds no panic of its
//! own, and the verified retry loops absorb a failed attempt. What can still
//! unwind inside a wrapper is not this crate's code: the payload type's own
//! `Clone` and `Drop` run there, and the cell aborts in one regime of its own
//! — on the order of 2^62 failed borrow attempts during a single mutable
//! borrow — that no real execution reaches.
//!
//! Nothing is claimed statically of a slot's contents: the cell changes
//! through shared references, which the verifier cannot track. The exchange
//! of values through a slot is checked by this crate's tests, not by proof.

use vstd::prelude::*;

use crate::futex::stall;
use atomic_refcell::AtomicRefCell;

verus! {

/// Relies on atomic_refcell::AtomicRefCell: declares the cell type so that it
/// can stand in a field; its values are opaque to the verifier.
#[verifier::external_type_specification]
#[verifier::external_body]
#[verifier::reject_recursive_types(T)]
pub struct ExAtomicRefCell<T: ?Sized>(AtomicRefCell<T>);

/// One shared storage place, holding at most one `T`.
#[verifier::reject_recursive_types(T)]
pub struct Slot<T> {
    cell: AtomicRefCell<Option<T>>,
}

/// How many times a slot operation is retried before the thread gives up and
/// parks forever. A failed attempt means another thread was inside the cell
/// at that instant, which the surrounding protocols exclude; the budget is
/// never consumed in practice.
pub(crate) const SLOT_RETRY_BUDGET: u64 = u64::MAX;

impl<T> Slot<T> {
    /// Relies on atomic_refcell::AtomicRefCell::new: makes a filled slot.
    #[verifier::external_body]
    pub(crate) fn new(value: T) -> Slot<T> {
        Slot { cell: AtomicRefCell::new(Some(value)) }
    }

    /// Relies on AtomicRefCell::try_borrow_mut and Option::take: empties the
    /// slot and hands its value out; `None` when the slot is empty or another
    /// borrow is live at this instant.
    #[verifier::external_body]
    fn try_take(&self) -> Option<T> {
        match self.cell.try_borrow_mut() {
            Ok(mut guard) => guard.take(),
            Err(_) => None,
        }
    }

    /// Relies on AtomicRefCell::try_borrow_mut: fills the slot with `value`,
    /// dropping any previous occupant; on a failed borrow the slot is left
    /// unchanged and `value` comes back.
    #[verifier::external_body]
    fn try_store(&self, value: T) -> Option<T> {
        match self.cell.try_borrow_mut() {
            Ok(mut guard) => {
                *guard = Some(value);
                None
            },
            Err(_) => Some(value),
        }
    }

    /// Takes the value out of the slot, retrying while the slot is empty or
    /// briefly borrowed. The callers' protocols guarantee that the calling
    /// thread holds exclusive access to a filled slot, so the first attempt
    /// succeeds; a thread that nevertheless ran out of retries would park
    /// forever rather than return a made-up value.
    pub(crate) fn take(&self) -> T {
        let mut fuel: u64 = SLOT_RETRY_BUDGET;
        while fuel > 0
            decreases fuel,
        {
            fuel = fuel - 1;
            match self.try_take() {
                Some(value) => {
                    return value;
                },
                None => {},
            }
        }
        stall()
    }

    /// Fills the slot with `value`, retrying while the cell is briefly
    /// borrowed. The callers' protocols guarantee that the slot is empty and
    /// unborrowed here, so the first attempt succeeds.
    pub(crate) fn store(&self, value: T) {
        let mut taken = value;
        let mut fuel: u64 = SLOT_RETRY_BUDGET;
        while fuel > 0
            decreases fuel,
        {
            fuel = fuel - 1;
            match self.try_store(taken) {
                None => {
                    return;
                },
                Some(back) => {
                    taken = back;
                },
            }
        }
        stall::<()>();
    }
}

impl<T: Clone> Slot<T> {
    /// Relies on AtomicRefCell::try_borrow and Clone: clones the slot's
    /// contents out; `None` when a mutable borrow is live at this instant.
    /// Concurrent readers may clone at the same time.
    #[verifier::external_body]
    fn try_clone_out(&self) -> Option<T> {
        match self.cell.try_borrow() {
            Ok(guard) => (*guard).clone(),
            Err(_) => None,
        }
    }

    /// Clones the value held by the slot, retrying while the slot is empty or
    /// mutably borrowed. The callers' protocols guarantee a filled slot with
    /// no live writer here, so the first attempt succeeds.
    pub(crate) fn clone_out(&self) -> T {
        let mut fuel: u64 = SLOT_RETRY_BUDGET;
        while fuel > 0
            decreases fuel,
        {
            fuel = fuel - 1;
            match self.try_clone_out() {
                Some(value) => {
                    return value;
                },
                None => {},
            }
        }
        stall()
    }
}

} // verus!
