//! The mutex's transition system over its three-state word, and the mutual
//! exclusion law proved of it.
//!
//! A state is the value of the atomic word together with the number of
//! threads currently holding the lock. Each step is one of the atomic
//! operations the executable lock performs, with the effect the hardware
//! gives it: a compare-and-swap applies only when the word holds the expected
//! value, a swap applies always and acquires exactly when it brought back 0.
//! Steps from different threads interleave in some total order, because every
//! one of them is a single atomic operation on the one word; the law holds of
//! every such order.

use vstd::prelude::*;

verus! {

/// The word value meaning "unlocked".
pub open spec fn unlocked() -> u32 {
    0
}

/// The word value meaning "locked, no other thread waiting".
pub open spec fn locked() -> u32 {
    1
}

/// The word value meaning "locked, other threads may be waiting".
pub open spec fn locked_contended() -> u32 {
    2
}

/// The state of one mutex.
pub struct MutexState {
    /// The atomic word.
    pub word: u32,
    /// How many threads hold the lock right now.
    pub holders: nat,
}

/// One atomic step of the protocol.
pub enum MutexOp {
    /// A successful compare-and-swap from 0 to 1: the fast-path acquisition.
    /// (A failed compare-and-swap changes nothing and so is no step.)
    AcquireFast,
    /// A contender's swap of the word to 2: it acquires the lock exactly when
    /// the swap brought back 0, and otherwise only records that waiters may
    /// exist, before the thread parks.
    SwapContended,
    /// The holder's swap of the word to 0.
    Release,
}

/// The state of a fresh mutex.
pub open spec fn initial() -> MutexState {
    MutexState { word: unlocked(), holders: 0 }
}

/// When a step can occur. The compare-and-swap applies only on the expected
/// word; a release is performed only by a thread that holds the lock, since
/// only the guard can unlock.
pub open spec fn enabled(s: MutexState, op: MutexOp) -> bool {
    match op {
        MutexOp::AcquireFast => s.word == unlocked(),
        MutexOp::SwapContended => true,
        MutexOp::Release => s.holders == 1,
    }
}

/// The state after a step.
pub open spec fn step(s: MutexState, op: MutexOp) -> MutexState {
    match op {
        MutexOp::AcquireFast => MutexState { word: locked(), holders: s.holders + 1 },
        MutexOp::SwapContended => if s.word == unlocked() {
            MutexState { word: locked_contended(), holders: s.holders + 1 }
        } else {
            MutexState { word: locked_contended(), ..s }
        },
        MutexOp::Release => MutexState { word: unlocked(), holders: (s.holders - 1) as nat },
    }
}

/// The state after a whole sequence of steps, starting from `initial`.
pub open spec fn run(ops: Seq<MutexOp>) -> MutexState
    decreases ops.len(),
{
    if ops.len() == 0 {
        initial()
    } else {
        step(run(ops.drop_last()), ops.last())
    }
}

/// Whether every step of the sequence is enabled in the state it meets.
pub open spec fn valid_history(ops: Seq<MutexOp>) -> bool
    decreases ops.len(),
{
    ops.len() == 0 || {
        &&& valid_history(ops.drop_last())
        &&& enabled(run(ops.drop_last()), ops.last())
    }
}

/// What holds in every reachable state: the word is one of the three values,
/// and it is 0 exactly while nobody holds the lock, so there is never more
/// than one holder.
pub open spec fn inv(s: MutexState) -> bool {
    &&& s.word == unlocked() || s.word == locked() || s.word == locked_contended()
    &&& s.holders == if s.word == unlocked() {
        0int
    } else {
        1int
    }
}

/// Every reachable state satisfies `inv`.
pub proof fn lemma_history_invariant(ops: Seq<MutexOp>)
    requires
        valid_history(ops),
    ensures
        inv(run(ops)),
    decreases ops.len(),
{
    if ops.len() > 0 {
        lemma_history_invariant(ops.drop_last());
    }
}

/// Mutual exclusion: under every interleaving of lock and unlock steps by any
/// number of threads, at most one thread holds the lock, and an unlocked word
/// means no thread holds it.
pub proof fn lemma_mutual_exclusion(ops: Seq<MutexOp>)
    requires
        valid_history(ops),
    ensures
        run(ops).holders <= 1,
        run(ops).word == unlocked() ==> run(ops).holders == 0,
{
    lemma_history_invariant(ops);
}

/// The conditional wake is safe: a contender leaves the word at 2 whenever it
/// does not acquire the lock, so the word a holder's release brings back is 2
/// whenever any thread went on to park after the holder acquired. A release
/// that brings back 1 therefore has nobody to wake, and skipping the wake
/// call loses no wakeup.
pub proof fn lemma_contender_marks_word(s: MutexState)
    requires
        inv(s),
        s.word != unlocked(),
    ensures
        step(s, MutexOp::SwapContended).word == locked_contended(),
        step(s, MutexOp::SwapContended).holders == s.holders,
{
}

} // verus!
