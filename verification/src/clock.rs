//! Reading the monotonic clock: spans between two readings, and ticks at a
//! fixed rate. All readings and spans are nanoseconds.

use vstd::prelude::*;

verus! {

pub const NANOS_PER_SEC: u128 = 1_000_000_000;

/// The rate of ticks, both of the input loop and of drawing: a quarter second.
pub const TICK_NANOS: u128 = 250_000_000;

/// The span from `start` to `now`; zero where `now` is not later.
pub open spec fn span(start: u128, now: u128) -> u128 {
    if now > start {
        (now - start) as u128
    } else {
        0
    }
}

/// The span from `start` to `now`; zero where `now` is not later.
pub fn elapsed_since(start: u128, now: u128) -> (d: u128)
    ensures
        d == span(start, now),
{
    if now > start {
        now - start
    } else {
        0
    }
}

/// Tells when a quarter second has gone by since the last tick.
#[derive(Debug, Clone, Copy)]
pub struct Ticker {
    last: u128,
}

impl Ticker {
    /// When the last tick was.
    pub closed spec fn last_tick(self) -> u128 {
        self.last
    }

    /// At `now` a tick is due.
    pub open spec fn due_at(self, now: u128) -> bool {
        span(self.last_tick(), now) >= TICK_NANOS
    }

    /// A ticker whose first interval begins at `now`.
    pub fn new(now: u128) -> (t: Ticker)
        ensures
            t.last_tick() == now,
    {
        Ticker { last: now }
    }

    /// How long to wait for input before the next tick is due; zero where it is
    /// due already.
    pub fn remaining(&self, now: u128) -> (d: u128)
        ensures
            d == (if self.due_at(now) { 0 } else { TICK_NANOS - span(self.last_tick(), now) }),
            d <= TICK_NANOS,
            d == 0 <==> self.due_at(now),
            self.last_tick() <= now && !self.due_at(now) ==> now + d == self.last_tick()
                + 250_000_000,
    {
        let passed: u128 = elapsed_since(self.last, now);
        if passed <= TICK_NANOS {
            TICK_NANOS - passed
        } else {
            0
        }
    }

    /// Tells whether a tick is due.
    pub fn is_due(&self, now: u128) -> (r: bool)
        ensures
            r == self.due_at(now),
    {
        elapsed_since(self.last, now) >= TICK_NANOS
    }

    /// Begins the next interval at `now`.
    pub fn reset(&mut self, now: u128)
        ensures
            final(self).last_tick() == now,
    {
        self.last = now;
    }
}

} // verus!
