//! The bound every repeated observation runs under.
//!
//! A poll counts its own ticks and stops at a declared cap: the daemon's own
//! budget for the work, in ticks of the poll's interval, plus a little so a run
//! that finishes at its deadline is still read once after it does, and never
//! more than a hard ceiling.

use vstd::prelude::*;

verus! {

/// The ticks one budget allows: the budget in whole intervals plus the slack,
/// and never past the ceiling.
pub open spec fn capped_ticks(budget_ms: u64, interval_ms: u64, slack: u32, ceiling: u32) -> u32 {
    let padded = budget_ms / interval_ms + slack;
    if padded < ceiling {
        padded as u32
    } else {
        ceiling
    }
}

/// The cap for one piece of work polled every `interval_ms`.
pub fn cap_for(budget_ms: u64, interval_ms: u64, slack: u32, ceiling: u32) -> (r: u32)
    requires
        interval_ms > 0,
    ensures
        r == capped_ticks(budget_ms, interval_ms, slack, ceiling),
        r <= ceiling,
{
    let ticks = budget_ms / interval_ms;
    if ticks < ceiling as u64 && (ceiling as u64 - ticks) > slack as u64 {
        (ticks as u32) + slack
    } else {
        ceiling
    }
}

} // verus!
