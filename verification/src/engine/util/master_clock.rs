//! The time that passed between two frames.

use vstd::prelude::*;

verus! {

/// The time from `last` to `now`, both in microseconds: 0 where the clock
/// went backwards, and no more than fits the result.
pub open spec fn elapsed(last: int, now: int) -> int {
    if now <= last {
        0
    } else if now - last > i32::MAX {
        i32::MAX as int
    } else {
        now - last
    }
}

/// Remembers when the last frame began and how long the frame before it
/// took. Times count in microseconds, which makes one second the
/// fixed-point 1.
pub struct MasterClock {
    last_time: u64,
    delta_time: i32,
}

impl MasterClock {
    /// The time of the last update.
    pub closed spec fn last_time(&self) -> int {
        self.last_time as int
    }

    /// The time between the last two updates.
    pub closed spec fn delta_time(&self) -> int {
        self.delta_time as int
    }

    /// A clock that starts at `now`.
    pub fn new(now: u64) -> (clock: Self)
        ensures
            clock.last_time() == now,
            clock.delta_time() == 0,
    {
        MasterClock { last_time: now, delta_time: 0 }
    }

    /// Moves the clock on to `now`.
    pub fn update(&mut self, now: u64)
        ensures
            final(self).last_time() == now,
            final(self).delta_time() == elapsed(old(self).last_time(), now as int),
    {
        if now <= self.last_time {
            self.delta_time = 0;
        } else if now - self.last_time > i32::MAX as u64 {
            self.delta_time = i32::MAX;
        } else {
            self.delta_time = (now - self.last_time) as i32;
        }
        self.last_time = now;
    }

    /// The time between the last two updates.
    pub fn get_delta_time(&self) -> (delta: i32)
        ensures
            delta == self.delta_time(),
    {
        self.delta_time
    }
}

} // verus!
