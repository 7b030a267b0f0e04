//! Bounded counter of live glyph entities.
//!
//! The counter is an admission-control gate: it never exceeds its configured
//! maximum and never goes below zero. Increments at the cap and decrements at
//! zero are silent no-ops — hitting a bound is an expected steady-state
//! condition, not an error.

use vstd::prelude::*;

verus! {

/// What one increment makes of a count: +1, a no-op at the cap.
pub open spec fn spec_increment(count: int, max: int) -> int {
    if count >= max {
        count
    } else {
        count + 1
    }
}

/// What one decrement makes of a count: -1, a no-op at zero.
pub open spec fn spec_decrement(count: int) -> int {
    if count <= 0 {
        0
    } else {
        count - 1
    }
}

/// The count after `k` increments in a row.
pub open spec fn count_after_increments(count: int, max: int, k: int) -> int {
    if count + k <= max {
        count + k
    } else {
        max
    }
}

/// The count after `k` decrements in a row.
pub open spec fn count_after_decrements(count: int, k: int) -> int {
    if count - k >= 0 {
        count - k
    } else {
        0
    }
}

/// The count after an arbitrary sequence of calls, `true` for an increment
/// and `false` for a decrement, applied left to right.
pub open spec fn run_counter(count: int, max: int, ops: Seq<bool>) -> int
    decreases ops.len(),
{
    if ops.len() == 0 {
        count
    } else {
        let prev = run_counter(count, max, ops.drop_last());
        if ops.last() {
            spec_increment(prev, max)
        } else {
            spec_decrement(prev)
        }
    }
}

/// The counter never leaves its bounds: whatever sequence of increments and
/// decrements runs against a count that starts inside `[0, max]`, the count
/// stays inside `[0, max]`.
pub proof fn lemma_counter_always_bounded(count: u64, max: u64, ops: Seq<bool>)
    requires
        count <= max,
    ensures
        0 <= run_counter(count as int, max as int, ops) <= max,
    decreases ops.len(),
{
    if ops.len() > 0 {
        lemma_counter_always_bounded(count, max, ops.drop_last());
    }
}

/// Counts live glyph entities, bounded by a configured maximum.
pub struct CharacterCounter {
    /// Current number of live glyphs accounted for.
    pub count: u64,
    /// Configured cap; the count never exceeds it.
    pub max: u64,
}

impl CharacterCounter {
    /// The counter is well formed when it sits inside its bounds.
    pub open spec fn wf(self) -> bool {
        self.count <= self.max
    }

    /// A fresh counter starts at zero.
    pub fn new(max: u64) -> (c: CharacterCounter)
        ensures
            c.count == 0,
            c.max == max,
            c.wf(),
    {
        CharacterCounter { count: 0, max }
    }

    /// Adds one live glyph; a no-op once the cap is reached.
    pub fn increment(&mut self)
        requires
            old(self).wf(),
        ensures
            final(self).wf(),
            final(self).max == old(self).max,
            final(self).count == spec_increment(old(self).count as int, old(self).max as int),
    {
        if self.count < self.max {
            self.count = self.count + 1;
        }
    }

    /// Removes one live glyph; a no-op once the count is zero.
    pub fn decrement(&mut self)
        requires
            old(self).wf(),
        ensures
            final(self).wf(),
            final(self).max == old(self).max,
            final(self).count == spec_decrement(old(self).count as int),
    {
        if self.count > 0 {
            self.count = self.count - 1;
        }
    }

    /// Forgets every live glyph; used on a full screen reset.
    pub fn reset(&mut self)
        ensures
            final(self).wf(),
            final(self).max == old(self).max,
            final(self).count == 0,
    {
        self.count = 0;
    }
}

} // verus!
