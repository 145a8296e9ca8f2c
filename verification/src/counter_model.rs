//! The monotonic-counter argument that closes the missed-wakeup race, proved
//! as arithmetic.
//!
//! The condition variable and the writer side of the fair reader-writer lock
//! both follow one pattern: a waiter reads a 32-bit counter cell, then parks
//! on that cell with the value it read, and every notification advances the
//! counter before waking. The wait/wake primitive parks the thread only while
//! the cell still holds the expected value. So if a notification fell into
//! the window between the waiter's read and its park — the window in which a
//! naive design loses wakeups — the cell has moved on and the park returns at
//! once. The law below states the arithmetic heart of this: as long as fewer
//! than 2^32 notifications fall into that window, the wrapped cell value
//! cannot have come back around to the one the waiter read.

use vstd::prelude::*;

use vstd::arithmetic::div_mod::lemma_fundamental_div_mod;

verus! {

/// The number of distinct values of the 32-bit counter cell.
pub open spec fn wrap() -> int {
    0x1_0000_0000
}

/// The cell value after a total of `notifications` notifications: the counter
/// advances by one each time and wraps around.
pub open spec fn cell_of(notifications: nat) -> u32 {
    (notifications % 0x1_0000_0000) as u32
}

/// Whether a park on a cell holding `cell` with expected value `expected`
/// puts the thread to sleep: the wait/wake primitive sleeps only while the
/// two are equal.
pub open spec fn wait_would_sleep(cell: u32, expected: u32) -> bool {
    cell == expected
}

/// Two counts that differ by less than one full wrap give different cell
/// values.
pub proof fn lemma_wrapped_values_differ(a: nat, b: nat)
    requires
        a < b,
        b - a < wrap(),
    ensures
        cell_of(a) != cell_of(b),
{
    let m = wrap();
    lemma_fundamental_div_mod(a as int, m);
    lemma_fundamental_div_mod(b as int, m);
    if a % m as nat == b % m as nat {
        let k = b as int / m - a as int / m;
        assert(b - a == m * k) by (nonlinear_arith)
            requires
                a == m * (a as int / m) + a as int % m,
                b == m * (b as int / m) + b as int % m,
                a as int % m == b as int % m,
                k == b as int / m - a as int / m,
        ;
        assert(false) by (nonlinear_arith)
            requires
                b - a == m * k,
                0 < b - a < m,
        ;
    }
}

/// No missed wakeup: a waiter that read the counter at `observed` total
/// notifications parks with that value, and if at least one and fewer than
/// 2^32 notifications have fired by the time the park looks at the cell, the
/// cell differs from the expected value and the waiter does not sleep — the
/// notification in the window is not lost.
pub proof fn lemma_notification_not_missed(observed: nat, now: nat)
    requires
        observed < now,
        now - observed < wrap(),
    ensures
        !wait_would_sleep(cell_of(now), cell_of(observed)),
{
    lemma_wrapped_values_differ(observed, now);
}

} // verus!
