use vstd::prelude::*;

verus! {

/// The time between two readings of a time source, clamped at zero when the source went
/// backwards.
pub open spec fn delta_spec(last: u64, now: u64) -> u64 {
    if now >= last {
        (now - last) as u64
    } else {
        0
    }
}

/// A continuous clock fed with readings of an outside time source.
///
/// The first `advance` returns the time since construction. When a reading is earlier
/// than the one before, `advance` returns zero and the clock goes on from the new reading.
#[derive(Clone, Copy, Debug, PartialEq, Eq, Structural)]
pub struct Clock {
    /// The reading at construction.
    pub start: u64,
    /// The reading at the last tick.
    pub last: u64,
    /// The sum of all deltas handed out, saturating.
    pub total: u64,
}

impl Clock {
    pub open spec fn new_spec(now: u64) -> Clock {
        Clock { start: now, last: now, total: 0 }
    }

    pub fn new(now: u64) -> (r: Clock)
        ensures
            r == Clock::new_spec(now),
    {
        Clock { start: now, last: now, total: 0 }
    }

    /// Takes a new reading and returns the time since the last one, never negative.
    pub fn advance(&mut self, now: u64) -> (dt: u64)
        ensures
            dt == delta_spec(old(self).last, now),
            final(self).start == old(self).start,
            final(self).last == now,
            final(self).total == if old(self).total + dt <= u64::MAX {
                (old(self).total + dt) as u64
            } else {
                u64::MAX
            },
    {
        let dt: u64 = if now >= self.last {
            now - self.last
        } else {
            0
        };
        self.last = now;
        self.total = self.total.saturating_add(dt);
        dt
    }

    /// The time handed out by all ticks so far.
    pub fn elapsed(&self) -> (r: u64)
        ensures
            r == self.total,
    {
        self.total
    }
}

/// A clock never hands out a negative time, and hands out no time at all when its source
/// went backwards.
pub proof fn lemma_delta_never_negative(last: u64, now: u64)
    ensures
        delta_spec(last, now) >= 0,
        now < last ==> delta_spec(last, now) == 0,
        now >= last ==> delta_spec(last, now) == now - last,
{
}

} // verus!
