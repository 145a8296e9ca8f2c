//! The process-wide wait/wake primitive that the blocking locks are built on.
//!
//! A thread can park itself on a 32-bit atomic cell until the cell's value is
//! observed to differ from an expected value, and other threads can wake one
//! or all parked threads. The primitive is a pure scheduling hint: it gives
//! no memory-ordering guarantees of its own, and a parked thread may resume
//! spuriously, so every caller re-checks its condition in a loop.

use vstd::prelude::*;

use core::sync::atomic::AtomicU32;

verus! {

/// Relies on atomic_wait::wait: blocks the calling thread while the cell
/// holds `expected`, returns once the value is observed to differ, and may
/// also return spuriously at any time. Nothing is promised of the cell or of
/// shared memory: all ordering comes from the callers' own atomics.
#[verifier::external_body]
pub(crate) fn futex_wait(cell: &AtomicU32, expected: u32) {
    atomic_wait::wait(cell, expected)
}

/// Relies on atomic_wait::wake_one: unblocks at most one thread parked on the
/// cell; a no-op when no thread is parked there.
#[verifier::external_body]
pub(crate) fn futex_wake_one(cell: &AtomicU32) {
    atomic_wait::wake_one(cell)
}

/// Relies on atomic_wait::wake_all: unblocks every thread parked on the cell;
/// a no-op when no thread is parked there.
#[verifier::external_body]
pub(crate) fn futex_wake_all(cell: &AtomicU32) {
    atomic_wait::wake_all(cell)
}

/// Relies on core::hint::spin_loop: tells the processor that this thread is
/// in a busy wait, so it can save power or yield the core. Pure performance
/// hint; no effect on any value.
#[verifier::external_body]
pub(crate) fn spin_hint() {
    core::hint::spin_loop()
}

/// Relies on core::sync::atomic::fence with acquire ordering: makes every
/// write that happened before a release operation on any atomic this thread
/// has since read visible to this thread. Used by the reference-counted
/// pointers, whose final decrement must observe all earlier decrements before
/// the payload is destroyed. No value is returned and nothing is claimed
/// statically: the fence only orders memory.
#[verifier::external_body]
pub(crate) fn fence_acquire() {
    core::sync::atomic::fence(core::sync::atomic::Ordering::Acquire)
}

/// Relies on atomic_wait::wait: parks the calling thread on a cell that no
/// thread can reach, so no wake ever comes and the call never returns; the
/// loop re-parks the thread after a spurious wakeup.
///
/// This stands only where a retry budget of 2^64 rounds has run out, or where
/// a reference counter would pass half of its range: no real execution
/// reaches either state (even at a round per nanosecond the budget outlasts
/// any machine by centuries, and a counter that large would need more handles
/// than memory can hold). Blocking
/// forever is this crate's one fatal outcome: none of its operations reports
/// an error, and its verified functions do not panic.
#[verifier::external_body]
pub(crate) fn stall<R>() -> R {
    let cell = AtomicU32::new(0);
    loop {
        atomic_wait::wait(&cell, 0);
    }
}

} // verus!
