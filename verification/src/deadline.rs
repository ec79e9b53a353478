//! The deadline clock: a start time and a budget, both in milliseconds of a
//! monotonic clock that the caller reads.

use vstd::prelude::*;

verus! {

/// A start time and a time budget. Both are fixed once the deadline is made;
/// every question asked of it takes the current clock reading.
#[derive(Clone, Copy, Debug, PartialEq, Eq, Structural)]
pub struct Deadline {
    pub start: u64,
    pub budget: u64,
}

impl Deadline {
    /// Time gone by since `start` at clock reading `now`; a reading that lies
    /// before `start` counts as no time at all.
    pub open spec fn spec_elapsed(self, now: u64) -> nat {
        if now >= self.start {
            (now - self.start) as nat
        } else {
            0
        }
    }

    /// What is left of the budget at clock reading `now`, never below zero.
    pub open spec fn spec_remaining(self, now: u64) -> nat {
        if self.spec_elapsed(now) >= self.budget {
            0
        } else {
            (self.budget - self.spec_elapsed(now)) as nat
        }
    }

    /// The budget is used up at clock reading `now`.
    pub open spec fn spec_expired(self, now: u64) -> bool {
        self.spec_elapsed(now) >= self.budget
    }

    /// A deadline that starts at clock reading `now` and lasts `budget`.
    pub fn new(now: u64, budget: u64) -> (d: Deadline)
        ensures
            d.start == now,
            d.budget == budget,
    {
        Deadline { start: now, budget }
    }

    pub fn elapsed(&self, now: u64) -> (e: u64)
        ensures
            e == self.spec_elapsed(now),
    {
        if now >= self.start {
            now - self.start
        } else {
            0
        }
    }

    pub fn remaining(&self, now: u64) -> (r: u64)
        ensures
            r == self.spec_remaining(now),
            r <= self.budget,
    {
        let e: u64 = self.elapsed(now);
        if e >= self.budget {
            0
        } else {
            self.budget - e
        }
    }

    pub fn expired(&self, now: u64) -> (b: bool)
        ensures
            b == self.spec_expired(now),
            b <==> self.spec_remaining(now) == 0,
    {
        self.remaining(now) == 0
    }
}

} // verus!
