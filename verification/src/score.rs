//! Score tracker: a non-negative counter of gap passes, reset at the start
//! of each play session.

use vstd::prelude::*;

verus! {

/// Points scored in the current play session.
#[derive(Clone, Copy, Debug, PartialEq, Eq, Structural)]
pub struct Score {
    pub value: u64,
}

/// One saturating increment of the counter.
pub open spec fn spec_increment(v: u64) -> u64 {
    if v < u64::MAX {
        (v + 1) as u64
    } else {
        u64::MAX
    }
}

/// The counter after `n` saturating increments starting from `v`.
pub open spec fn after_increments(v: u64, n: nat) -> u64
    decreases n,
{
    if n == 0 {
        v
    } else {
        spec_increment(after_increments(v, (n - 1) as nat))
    }
}

impl Score {
    pub fn new() -> (s: Score)
        ensures
            s.value == 0,
    {
        Score { value: 0 }
    }

    /// Add one point; the counter saturates instead of wrapping.
    pub fn increment(&mut self)
        ensures
            final(self).value == spec_increment(old(self).value),
    {
        if self.value < u64::MAX {
            self.value = self.value + 1;
        }
    }

    /// Back to zero, whatever the counter held.
    pub fn reset(&mut self)
        ensures
            final(self).value == 0,
    {
        self.value = 0;
    }

    /// The current value, for display.
    pub fn current(&self) -> (v: u64)
        ensures
            v == self.value,
    {
        self.value
    }
}

/// `increment` applied `n` times to a fresh counter yields exactly `n`,
/// for every count the counter can represent.
pub proof fn lemma_increments_from_zero(n: nat)
    requires
        n <= u64::MAX,
    ensures
        after_increments(0, n) == n,
    decreases n,
{
    if n > 0 {
        lemma_increments_from_zero((n - 1) as nat);
    }
}

} // verus!
