use vstd::prelude::*;

verus! {

/// Paces something that is done again whenever an interval has gone by. Time
/// is what the caller reads off a clock of its own, in a unit of its own.
#[derive(Debug, Clone, Copy, PartialEq, Eq, Structural)]
pub struct Transition {
    pub interval: u64,
    /// When the thing was last done.
    pub before: u64,
}

impl Transition {
    pub fn new(interval: u64, now: u64) -> (t: Self)
        ensures
            t.interval == interval,
            t.before == now,
    {
        Self { interval, before: now }
    }

    /// The time gone by at `now` since the thing was last done; none where
    /// the clock has gone back.
    pub open spec fn elapsed(self, now: u64) -> int {
        if now >= self.before {
            now - self.before
        } else {
            0
        }
    }

    /// Says whether the interval has gone by at `now`. Where it has, the
    /// caller does the thing, and the interval begins again at `now`.
    pub fn update_if_elapsed(&mut self, now: u64) -> (due: bool)
        ensures
            due == (old(self).elapsed(now) >= old(self).interval),
            final(self).interval == old(self).interval,
            due ==> final(self).before == now,
            !due ==> final(self).before == old(self).before,
    {
        let elapsed: u64 = if now >= self.before {
            now - self.before
        } else {
            0
        };
        if elapsed < self.interval {
            return false;
        }
        self.before = now;
        true
    }
}

} // verus!
