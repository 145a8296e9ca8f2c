//! The transition systems of the two reader-writer locks, and the exclusion
//! laws proved of them.
//!
//! A state is the value of the atomic word together with the number of
//! threads holding read locks and write locks right now; the fair variant
//! also carries its writer-wake counter. Each step is one atomic operation of
//! the executable lock, applying exactly when its compare-and-swap would:
//! steps from different threads interleave in some total order, because every
//! one of them is a single atomic operation on the one word, and the laws
//! hold of every such order.

use vstd::prelude::*;

verus! {

/// The word value meaning "write-locked", for both variants.
pub open spec fn write_locked() -> int {
    u32::MAX as int
}

// ------------------------------------------------------------------
// The plain lock: the word is the reader count.
// ------------------------------------------------------------------

/// The state of one plain reader-writer lock.
pub struct PlainState {
    /// The atomic word: the reader count, or `u32::MAX` when write-locked.
    pub word: int,
    /// Threads holding read locks right now.
    pub readers: nat,
    /// Threads holding the write lock right now.
    pub writers: nat,
}

/// One atomic step of the plain protocol.
pub enum PlainOp {
    /// A reader's successful compare-and-swap raising the word by one. The
    /// executable loop attempts it only on a word at least two below the
    /// write-locked value, so the count can never reach that value.
    ReadAcquire,
    /// A writer's successful compare-and-swap from zero to write-locked.
    WriteAcquire,
    /// A reader's decrement of the word by one.
    ReadRelease,
    /// The writer's store of zero.
    WriteRelease,
}

/// The state of a fresh lock.
pub open spec fn plain_initial() -> PlainState {
    PlainState { word: 0, readers: 0, writers: 0 }
}

/// When a step can occur: acquisitions apply when the word lets them, and a
/// release is performed only by a thread that holds the matching lock.
pub open spec fn plain_enabled(s: PlainState, op: PlainOp) -> bool {
    match op {
        PlainOp::ReadAcquire => s.word < write_locked() - 1,
        PlainOp::WriteAcquire => s.word == 0,
        PlainOp::ReadRelease => s.readers >= 1,
        PlainOp::WriteRelease => s.writers >= 1,
    }
}

/// The state after a step.
pub open spec fn plain_step(s: PlainState, op: PlainOp) -> PlainState {
    match op {
        PlainOp::ReadAcquire => PlainState { word: s.word + 1, readers: s.readers + 1, ..s },
        PlainOp::WriteAcquire => PlainState { word: write_locked(), writers: s.writers + 1, ..s },
        PlainOp::ReadRelease => PlainState {
            word: s.word - 1,
            readers: (s.readers - 1) as nat,
            ..s
        },
        PlainOp::WriteRelease => PlainState { word: 0, writers: (s.writers - 1) as nat, ..s },
    }
}

/// The state after a whole sequence of steps, starting from `plain_initial`.
pub open spec fn plain_run(ops: Seq<PlainOp>) -> PlainState
    decreases ops.len(),
{
    if ops.len() == 0 {
        plain_initial()
    } else {
        plain_step(plain_run(ops.drop_last()), ops.last())
    }
}

/// Whether every step of the sequence is enabled in the state it meets.
pub open spec fn plain_valid_history(ops: Seq<PlainOp>) -> bool
    decreases ops.len(),
{
    ops.len() == 0 || {
        &&& plain_valid_history(ops.drop_last())
        &&& plain_enabled(plain_run(ops.drop_last()), ops.last())
    }
}

/// What holds in every reachable state of the plain lock: the word counts the
/// readers exactly, except when it is the write-locked value, and then one
/// writer and no reader holds the lock.
pub open spec fn plain_inv(s: PlainState) -> bool {
    if s.word == write_locked() {
        s.writers == 1 && s.readers == 0
    } else {
        s.writers == 0 && s.readers == s.word && 0 <= s.word < write_locked()
    }
}

/// Every reachable state of the plain lock satisfies `plain_inv`.
pub proof fn lemma_history_invariant_plain(ops: Seq<PlainOp>)
    requires
        plain_valid_history(ops),
    ensures
        plain_inv(plain_run(ops)),
    decreases ops.len(),
{
    if ops.len() > 0 {
        lemma_history_invariant_plain(ops.drop_last());
    }
}

/// Exclusion for the plain lock, under every interleaving: at most one writer
/// holds the lock, never together with a reader, while any number of readers
/// may hold it together.
pub proof fn lemma_exclusion_plain(ops: Seq<PlainOp>)
    requires
        plain_valid_history(ops),
    ensures
        plain_run(ops).writers <= 1,
        plain_run(ops).writers == 1 ==> plain_run(ops).readers == 0,
        plain_run(ops).readers > 0 ==> plain_run(ops).writers == 0,
{
    lemma_history_invariant_plain(ops);
}

// ------------------------------------------------------------------
// The fair lock: the word packs the reader count with the writer-waiting
// flag, and a separate counter wakes writers.
// ------------------------------------------------------------------

/// The state of one fair reader-writer lock.
pub struct FairState {
    /// The atomic word: twice the reader count, plus one if a writer is
    /// waiting; `u32::MAX` when write-locked.
    pub word: int,
    /// Threads holding read locks right now.
    pub readers: nat,
    /// Threads holding the write lock right now.
    pub writers: nat,
    /// The writer-wake counter, free of wrap-around: the executable cell
    /// holds it modulo 2^32, as in `crate::counter_model`.
    pub wake_counter: nat,
}

/// One atomic step of the fair protocol.
pub enum FairOp {
    /// A reader's successful compare-and-swap raising the word by two, on an
    /// even word comfortably below the write-locked value.
    ReadAcquire,
    /// A writer's successful compare-and-swap from zero-or-flag straight to
    /// write-locked.
    WriteAcquire,
    /// A waiting writer's successful compare-and-swap making an even word odd
    /// so that no new reader joins. The executable swap does not check the
    /// word against the write-locked value: a word within one of it would
    /// mean 2^31 − 1 simultaneous readers, which no execution reaches, and
    /// the transition system records that bound as an enabling condition.
    MarkWriterWaiting,
    /// A reader's decrement of the word by two; when the result says "writer
    /// waiting, no readers left", the wake counter advances.
    ReadRelease,
    /// The writer's store of zero; the wake counter advances.
    WriteRelease,
}

/// The state of a fresh lock.
pub open spec fn fair_initial() -> FairState {
    FairState { word: 0, readers: 0, writers: 0, wake_counter: 0 }
}

/// When a step can occur: acquisitions and the flag apply when the word lets
/// them, and a release is performed only by a thread that holds the matching
/// lock.
pub open spec fn fair_enabled(s: FairState, op: FairOp) -> bool {
    match op {
        FairOp::ReadAcquire => s.word % 2 == 0 && s.word < write_locked() - 2,
        FairOp::WriteAcquire => 0 <= s.word <= 1,
        FairOp::MarkWriterWaiting => s.word % 2 == 0 && 2 <= s.word && s.word + 1
            < write_locked(),
        FairOp::ReadRelease => s.readers >= 1,
        FairOp::WriteRelease => s.writers >= 1,
    }
}

/// The state after a step.
pub open spec fn fair_step(s: FairState, op: FairOp) -> FairState {
    match op {
        FairOp::ReadAcquire => FairState { word: s.word + 2, readers: s.readers + 1, ..s },
        FairOp::WriteAcquire => FairState { word: write_locked(), writers: s.writers + 1, ..s },
        FairOp::MarkWriterWaiting => FairState { word: s.word + 1, ..s },
        FairOp::ReadRelease => FairState {
            word: s.word - 2,
            readers: (s.readers - 1) as nat,
            wake_counter: if s.word - 2 == 1 {
                s.wake_counter + 1
            } else {
                s.wake_counter
            },
            ..s
        },
        FairOp::WriteRelease => FairState {
            word: 0,
            writers: (s.writers - 1) as nat,
            wake_counter: s.wake_counter + 1,
            ..s
        },
    }
}

/// The state after a whole sequence of steps, starting from `fair_initial`.
pub open spec fn fair_run(ops: Seq<FairOp>) -> FairState
    decreases ops.len(),
{
    if ops.len() == 0 {
        fair_initial()
    } else {
        fair_step(fair_run(ops.drop_last()), ops.last())
    }
}

/// Whether every step of the sequence is enabled in the state it meets.
pub open spec fn fair_valid_history(ops: Seq<FairOp>) -> bool
    decreases ops.len(),
{
    ops.len() == 0 || {
        &&& fair_valid_history(ops.drop_last())
        &&& fair_enabled(fair_run(ops.drop_last()), ops.last())
    }
}

/// What holds in every reachable state of the fair lock: when not
/// write-locked, the word is twice the reader count plus at most the flag;
/// when write-locked, one writer and no reader holds the lock.
pub open spec fn fair_inv(s: FairState) -> bool {
    if s.word == write_locked() {
        s.writers == 1 && s.readers == 0
    } else {
        &&& s.writers == 0
        &&& s.word == 2 * s.readers || s.word == 2 * s.readers + 1
        &&& 0 <= s.word < write_locked()
    }
}

/// Every reachable state of the fair lock satisfies `fair_inv`.
pub proof fn lemma_history_invariant_fair(ops: Seq<FairOp>)
    requires
        fair_valid_history(ops),
    ensures
        fair_inv(fair_run(ops)),
    decreases ops.len(),
{
    if ops.len() > 0 {
        lemma_history_invariant_fair(ops.drop_last());
    }
}

/// Exclusion for the fair lock, under every interleaving: at most one writer
/// holds the lock, never together with a reader, while any number of readers
/// may hold it together.
pub proof fn lemma_exclusion_fair(ops: Seq<FairOp>)
    requires
        fair_valid_history(ops),
    ensures
        fair_run(ops).writers <= 1,
        fair_run(ops).writers == 1 ==> fair_run(ops).readers == 0,
        fair_run(ops).readers > 0 ==> fair_run(ops).writers == 0,
{
    lemma_history_invariant_fair(ops);
}

/// The writer-wake counter never goes down, whatever steps follow: the
/// premise of the missed-wakeup argument in `crate::counter_model`. Together
/// with `lemma_last_reader_wakes_writer` below, a writer that read the
/// counter and then found the lock still taken cannot sleep past the release
/// that freed the lock for it: that release advanced the counter, so the
/// writer's park finds the cell changed.
pub proof fn lemma_wake_counter_monotonic(ops: Seq<FairOp>, more: Seq<FairOp>)
    requires
        fair_valid_history(ops + more),
    ensures
        fair_run(ops).wake_counter <= fair_run(ops + more).wake_counter,
    decreases more.len(),
{
    if more.len() == 0 {
        assert(ops + more =~= ops);
    } else {
        assert((ops + more).drop_last() =~= ops + more.drop_last());
        lemma_wake_counter_monotonic(ops, more.drop_last());
    }
}

/// The release of the last reader, with a writer waiting, makes the lock
/// available to that writer and advances the wake counter in the same step:
/// the word "writer waiting, one reader" goes to "writer waiting, no
/// readers", from which only a writer can acquire.
pub proof fn lemma_last_reader_wakes_writer(s: FairState)
    requires
        fair_inv(s),
        s.word == 3,
    ensures
        fair_step(s, FairOp::ReadRelease).word == 1,
        fair_step(s, FairOp::ReadRelease).wake_counter == s.wake_counter + 1,
        !fair_enabled(fair_step(s, FairOp::ReadRelease), FairOp::ReadAcquire),
        fair_enabled(fair_step(s, FairOp::ReadRelease), FairOp::WriteAcquire),
{
}

} // verus!
