//! The counting discipline of the reference-counted pointers, as a
//! specification-level transition system, and the laws proved of it.
//!
//! A state tracks the live strong and weak handles of one allocation, whether
//! the payload is still present, and how many times the payload destructor
//! has run. Each operation of the pointer types is a step: every step is a
//! method of some live handle, so a step is enabled only while such a handle
//! exists. The laws below hold of every sequence of enabled steps — that is,
//! of every interleaving of clone, release, downgrade and upgrade calls that
//! any number of threads can produce on one allocation, since the counter
//! updates are atomic and so form one total order of steps.
//!
//! The executable pointers drive the same discipline on live atomics: strong
//! counts move by `fetch_add`/`fetch_sub`/compare-and-swap, and uniqueness
//! checks read the counters that these laws reason about.

use vstd::prelude::*;

verus! {

/// The bookkeeping state of one allocation.
pub struct ArcState {
    /// Live strong handles.
    pub strong: nat,
    /// Live weak handles.
    pub weak: nat,
    /// Whether the payload is still present.
    pub payload: bool,
    /// How many times the payload destructor has run.
    pub destructions: nat,
}

/// One operation on some handle of the allocation.
pub enum ArcOp {
    /// A strong handle is cloned.
    CloneStrong,
    /// A strong handle is given back; the last one destroys the payload.
    ReleaseStrong,
    /// A weak handle is made from a strong one.
    Downgrade,
    /// A weak handle is cloned.
    CloneWeak,
    /// A weak handle is given back.
    ReleaseWeak,
    /// A weak handle asks for a strong one; this succeeds exactly while some
    /// strong handle exists.
    Upgrade,
}

/// The state right after `new`: one strong handle, the payload present.
pub open spec fn initial() -> ArcState {
    ArcState { strong: 1, weak: 0, payload: true, destructions: 0 }
}

/// Whether an operation can occur in a state: every operation is a method of
/// a live handle of the matching kind.
pub open spec fn enabled(s: ArcState, op: ArcOp) -> bool {
    match op {
        ArcOp::CloneStrong => s.strong > 0,
        ArcOp::ReleaseStrong => s.strong > 0,
        ArcOp::Downgrade => s.strong > 0,
        ArcOp::CloneWeak => s.weak > 0,
        ArcOp::ReleaseWeak => s.weak > 0,
        ArcOp::Upgrade => s.weak > 0,
    }
}

/// Whether `upgrade` hands out a strong handle in this state.
pub open spec fn upgrade_succeeds(s: ArcState) -> bool {
    s.strong > 0
}

/// The state after an enabled operation.
pub open spec fn step(s: ArcState, op: ArcOp) -> ArcState {
    match op {
        ArcOp::CloneStrong => ArcState { strong: s.strong + 1, ..s },
        ArcOp::ReleaseStrong => if s.strong == 1 {
            ArcState {
                strong: 0,
                payload: false,
                destructions: s.destructions + 1,
                ..s
            }
        } else {
            ArcState { strong: (s.strong - 1) as nat, ..s }
        },
        ArcOp::Downgrade => ArcState { weak: s.weak + 1, ..s },
        ArcOp::CloneWeak => ArcState { weak: s.weak + 1, ..s },
        ArcOp::ReleaseWeak => ArcState { weak: (s.weak - 1) as nat, ..s },
        ArcOp::Upgrade => if upgrade_succeeds(s) {
            ArcState { strong: s.strong + 1, ..s }
        } else {
            s
        },
    }
}

/// The state after a whole sequence of operations, starting from `initial`.
pub open spec fn run(ops: Seq<ArcOp>) -> ArcState
    decreases ops.len(),
{
    if ops.len() == 0 {
        initial()
    } else {
        step(run(ops.drop_last()), ops.last())
    }
}

/// Whether every operation of the sequence is enabled in the state it meets.
pub open spec fn valid_history(ops: Seq<ArcOp>) -> bool
    decreases ops.len(),
{
    ops.len() == 0 || {
        &&& valid_history(ops.drop_last())
        &&& enabled(run(ops.drop_last()), ops.last())
    }
}

/// What holds in every reachable state: the payload is present exactly while
/// a strong handle exists, and the destructor has run exactly once after the
/// strong count reached zero, never before.
pub open spec fn inv(s: ArcState) -> bool {
    &&& (s.payload <==> s.strong > 0)
    &&& s.destructions == if s.strong > 0 {
        0int
    } else {
        1int
    }
}

/// The allocation count kept by the two-counter pointer with the optimized
/// strong path: all strong handles together hold one unit.
pub open spec fn alloc_count(s: ArcState) -> nat {
    s.weak + if s.strong > 0 {
        1nat
    } else {
        0nat
    }
}

/// The allocation count kept by the plain two-counter pointer: every handle,
/// strong or weak, holds one unit.
pub open spec fn combined_count(s: ArcState) -> nat {
    s.strong + s.weak
}

/// Every reachable state satisfies `inv`. In particular the payload is never
/// touched after destruction, and never destroyed while a strong handle is
/// live.
pub proof fn lemma_history_invariant(ops: Seq<ArcOp>)
    requires
        valid_history(ops),
    ensures
        inv(run(ops)),
    decreases ops.len(),
{
    if ops.len() > 0 {
        lemma_history_invariant(ops.drop_last());
    }
}

/// The payload destructor runs exactly once over any history whose strong
/// count has reached zero, and not at all while a strong handle is live — for
/// every interleaving of handle operations whatsoever.
pub proof fn lemma_payload_destroyed_once(ops: Seq<ArcOp>)
    requires
        valid_history(ops),
    ensures
        run(ops).destructions <= 1,
        run(ops).destructions == 1 <==> run(ops).strong == 0,
        run(ops).payload <==> run(ops).strong > 0,
{
    lemma_history_invariant(ops);
}

/// The payload is destroyed only by the release of the very last strong
/// handle: a step that increases the destruction count is a strong release
/// that meets a strong count of one.
pub proof fn lemma_destruction_is_last_release(ops: Seq<ArcOp>, i: int)
    requires
        valid_history(ops),
        0 <= i < ops.len(),
        run(ops.take(i + 1)).destructions > run(ops.take(i)).destructions,
    ensures
        ops[i] is ReleaseStrong,
        run(ops.take(i)).strong == 1,
        run(ops.take(i + 1)).strong == 0,
{
    lemma_take_valid(ops, i);
    lemma_take_valid(ops, i + 1);
    assert(ops.take(i + 1).drop_last() =~= ops.take(i));
    assert(run(ops.take(i + 1)) == step(run(ops.take(i)), ops[i]));
}

/// A prefix of a valid history is a valid history.
pub proof fn lemma_take_valid(ops: Seq<ArcOp>, i: int)
    requires
        valid_history(ops),
        0 <= i <= ops.len(),
    ensures
        valid_history(ops.take(i)),
    decreases ops.len(),
{
    if i < ops.len() {
        lemma_take_valid(ops.drop_last(), i);
        assert(ops.drop_last().take(i) =~= ops.take(i));
    } else {
        assert(ops.take(i) =~= ops);
    }
}

/// Upgrade succeeds whenever a strong handle exists concurrently: in every
/// reachable state with a live strong handle, the upgrade step hands out a
/// new strong handle and the payload is present for it.
pub proof fn lemma_upgrade_live(ops: Seq<ArcOp>)
    requires
        valid_history(ops),
        run(ops).strong > 0,
    ensures
        upgrade_succeeds(run(ops)),
        run(ops).payload,
        run(ops).weak > 0 ==> step(run(ops), ArcOp::Upgrade).strong == run(ops).strong + 1,
{
    lemma_history_invariant(ops);
}

/// Once the strong count has reached zero it stays zero: no later operations
/// can revive it, so every later upgrade returns nothing. `more` is any
/// continuation of the history.
pub proof fn lemma_strong_zero_is_forever(ops: Seq<ArcOp>, more: Seq<ArcOp>)
    requires
        valid_history(ops + more),
        run(ops).strong == 0,
    ensures
        run(ops + more).strong == 0,
        !upgrade_succeeds(run(ops + more)),
        !run(ops + more).payload,
    decreases more.len(),
{
    if more.len() == 0 {
        assert(ops + more =~= ops);
    } else {
        assert((ops + more).drop_last() =~= ops + more.drop_last());
        lemma_strong_zero_is_forever(ops, more.drop_last());
    }
    lemma_history_invariant(ops + more);
}

/// Exactly one handle of any kind exists if and only if the optimized
/// uniqueness check passes: the allocation count is one — so no weak handle
/// exists — and the strong count is one. The caller itself holds a strong
/// handle, so the strong count is at least one.
pub proof fn lemma_unique_access(s: ArcState)
    requires
        s.strong >= 1,
    ensures
        (alloc_count(s) == 1 && s.strong == 1) <==> s.strong + s.weak == 1,
{
}

/// Exactly one handle of any kind exists if and only if the plain combined
/// count is one, under the same assumption that the caller holds a strong
/// handle.
pub proof fn lemma_unique_access_combined(s: ArcState)
    requires
        s.strong >= 1,
    ensures
        combined_count(s) == 1 <==> s.strong == 1 && s.weak == 0,
{
}

} // verus!
