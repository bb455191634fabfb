//! The repaint schedule: a deadline and a flag, set whenever the toolkit asks
//! for a repaint, read by the poll loop.
//!
//! Times are nanoseconds on one monotonic clock, from an origin that the
//! caller fixes for the process.

use vstd::prelude::*;

verus! {

/// Whether a repaint is pending, and from when on it is due.
#[derive(Clone, Copy, Debug, PartialEq, Eq, Structural)]
pub struct RepaintSchedule {
    pub needs_repaint: bool,
    pub deadline: u64,
}

/// The later of two times.
pub open spec fn max_time(a: u64, b: u64) -> u64 {
    if a >= b {
        a
    } else {
        b
    }
}

/// Whether a repaint is due at `now`: one is pending and its deadline passed.
pub open spec fn is_due(s: RepaintSchedule, now: u64) -> bool {
    s.needs_repaint && now >= s.deadline
}

/// The time left until the deadline, or zero once it passed.
pub open spec fn remaining(s: RepaintSchedule, now: u64) -> u64 {
    if s.deadline > now {
        (s.deadline - now) as u64
    } else {
        0
    }
}

/// How long the poll loop may block at `now`: the lesser of the minimum update
/// period and the time left until a pending repaint; without either, without
/// limit (`None`).
pub open spec fn poll_timeout_of(s: RepaintSchedule, now: u64, min_update: Option<u64>) -> Option<u64> {
    if s.needs_repaint {
        match min_update {
            Some(d) => Some(if d <= remaining(s, now) { d } else { remaining(s, now) }),
            None => Some(remaining(s, now)),
        }
    } else {
        min_update
    }
}

impl RepaintSchedule {
    /// A schedule with nothing pending.
    pub fn new(now: u64) -> (r: RepaintSchedule)
        ensures
            !r.needs_repaint,
            r.deadline == now,
    {
        RepaintSchedule { needs_repaint: false, deadline: now }
    }

    /// Records a request for a repaint `delay` after `now`. The deadline
    /// saturates at the end of the clock's range.
    pub fn request(&mut self, now: u64, delay: u64)
        ensures
            final(self).needs_repaint,
            final(self).deadline as int == if now + delay <= u64::MAX {
                now + delay
            } else {
                u64::MAX as int
            },
    {
        self.needs_repaint = true;
        self.deadline = now.saturating_add(delay);
    }

    /// How long the poll loop may block at `now`, given the application's
    /// minimum update period.
    pub fn poll_timeout(&self, now: u64, min_update: Option<u64>) -> (r: Option<u64>)
        ensures
            r == poll_timeout_of(*self, now, min_update),
    {
        if self.needs_repaint {
            let left = self.deadline.saturating_sub(now);
            match min_update {
                Some(d) => Some(if d <= left { d } else { left }),
                None => Some(left),
            }
        } else {
            min_update
        }
    }

    /// Whether to repaint at `now`. A due repaint is taken: the flag is
    /// cleared, so that it is issued once.
    pub fn take_due(&mut self, now: u64) -> (r: bool)
        ensures
            r == is_due(*old(self), now),
            final(self).deadline == old(self).deadline,
            final(self).needs_repaint == (old(self).needs_repaint && !r),
    {
        if self.needs_repaint && now >= self.deadline {
            self.needs_repaint = false;
            true
        } else {
            false
        }
    }

    /// Whether to run a frame at `now`: a repaint is due and there is a
    /// surface to draw on. A due repaint is taken either way; without a
    /// surface the frame is skipped whole, and the input waits for the frame
    /// that follows the surface's return.
    pub fn take_frame(&mut self, now: u64, surface_active: bool) -> (r: bool)
        ensures
            r == (is_due(*old(self), now) && surface_active),
            final(self).deadline == old(self).deadline,
            final(self).needs_repaint == (old(self).needs_repaint && !is_due(*old(self), now)),
    {
        let due = self.take_due(now);
        due && surface_active
    }
}

/// A pending repaint is not due before its deadline and is due at any time
/// from the deadline on; the poll loop, which blocks at most for the poll
/// timeout, wakes no later than the deadline (at once when it passed), so the
/// repaint is taken in the iteration in which the deadline elapses.
pub proof fn lemma_repaint_gating(s: RepaintSchedule, now: u64, later: u64, min_update: Option<u64>)
    requires
        s.needs_repaint,
    ensures
        now < s.deadline ==> !is_due(s, now),
        later >= s.deadline ==> is_due(s, later),
        poll_timeout_of(s, now, min_update) is Some,
        now + poll_timeout_of(s, now, min_update)->0 <= max_time(now, s.deadline),
{
}

} // verus!
