//! Exponential delay between connection attempts, doubled after each wait up
//! to a cap. Delays are in milliseconds.

use vstd::prelude::*;

verus! {

/// The delay that follows `d`: doubled, at most `max`.
pub open spec fn next_delay(d: int, max: int) -> int {
    if 2 * d <= max {
        2 * d
    } else {
        max
    }
}

/// The delay after `n` waits that started from `d`.
pub open spec fn delay_after(d: int, max: int, n: nat) -> int
    decreases n,
{
    if n == 0 {
        d
    } else {
        next_delay(delay_after(d, max, (n - 1) as nat), max)
    }
}

pub struct Backoff {
    max_delay: u64,
    delay: u64,
}

impl Backoff {
    pub closed spec fn spec_delay(&self) -> int {
        self.delay as int
    }

    pub closed spec fn spec_max_delay(&self) -> int {
        self.max_delay as int
    }

    pub fn new(initial: u64, max_delay: u64) -> (r: Self)
        ensures
            r.spec_delay() == initial,
            r.spec_max_delay() == max_delay,
    {
        Backoff { max_delay, delay: initial }
    }

    /// The delay of the next wait.
    pub fn delay(&self) -> (r: u64)
        ensures
            r == self.spec_delay(),
    {
        self.delay
    }

    pub fn max_delay(&self) -> (r: u64)
        ensures
            r == self.spec_max_delay(),
    {
        self.max_delay
    }

    /// Returns the delay to wait now and doubles the next one, up to the cap.
    pub fn tick(&mut self) -> (r: u64)
        ensures
            r == old(self).spec_delay(),
            final(self).spec_delay() == next_delay(old(self).spec_delay(), old(self).spec_max_delay()),
            final(self).spec_max_delay() == old(self).spec_max_delay(),
    {
        let current = self.delay;
        if self.delay <= self.max_delay / 2 {
            self.delay = self.delay * 2;
        } else {
            self.delay = self.max_delay;
        }
        current
    }
}

/// Below the cap, a delay never shrinks and never passes the cap.
pub proof fn lemma_next_delay_monotone(d: int, max: int)
    requires
        0 <= d <= max,
    ensures
        d <= next_delay(d, max) <= max,
{
}

/// Along a run of waits the delays never decrease: the `i`-th is at most the
/// `j`-th for `i <= j`, and none passes the cap.
pub proof fn lemma_delays_non_decreasing(d: int, max: int, i: nat, j: nat)
    requires
        0 <= d <= max,
        i <= j,
    ensures
        delay_after(d, max, i) <= delay_after(d, max, j) <= max,
    decreases j,
{
    lemma_delay_bounded(d, max, j);
    if i < j {
        lemma_delays_non_decreasing(d, max, i, (j - 1) as nat);
        lemma_delay_bounded(d, max, (j - 1) as nat);
        lemma_next_delay_monotone(delay_after(d, max, (j - 1) as nat), max);
    }
}

/// Every delay of a run stays between the first one and the cap.
pub proof fn lemma_delay_bounded(d: int, max: int, n: nat)
    requires
        0 <= d <= max,
    ensures
        d <= delay_after(d, max, n) <= max,
    decreases n,
{
    if n > 0 {
        lemma_delay_bounded(d, max, (n - 1) as nat);
        lemma_next_delay_monotone(delay_after(d, max, (n - 1) as nat), max);
    }
}

} // verus!
