//! Animation progress, read off a deadline and the clock.
//!
//! Times are whole nanoseconds on a monotonic clock whose origin the caller
//! picks; durations are whole nanoseconds.
use vstd::prelude::*;

use crate::transition::EASED_ONE;

verus! {

/// How far a slide has come: `1 - remaining / duration`.
///
/// Only the deadline is kept between frames; this value is derived anew each
/// time, so it cannot drift with the frame rate.
#[derive(Clone, Copy, Debug, PartialEq, Eq, Hash, Structural)]
pub struct Progress {
    /// Nanoseconds still to go; zero once the deadline has passed.
    pub remaining: u64,
    /// The length of the whole slide, in nanoseconds.
    pub duration: u64,
}

impl Progress {
    /// The numerator of the progress over `duration`.
    pub open spec fn elapsed(self) -> int {
        self.duration - self.remaining
    }

    /// Whether the slide has reached its end (progress of at least one).
    pub open spec fn is_complete(self) -> bool {
        self.remaining == 0
    }

    /// The progress in units of `1 / EASED_ONE`, rounded down.
    pub open spec fn fixed_spec(self) -> int {
        self.elapsed() * EASED_ONE / self.duration as int
    }

    /// The progress as a fixed-point number, as an easing curve reads it.
    pub fn as_fixed(&self) -> (r: i64)
        requires
            self.duration > 0,
            self.remaining <= self.duration,
        ensures
            r == self.fixed_spec(),
            0 <= r <= EASED_ONE,
    {
        let elapsed = (self.duration - self.remaining) as u128;
        assert(elapsed * 65536 <= self.duration as u128 * 65536) by (nonlinear_arith)
            requires
                elapsed <= self.duration,
        ;
        let scaled = elapsed * 65536;
        let fixed = scaled / (self.duration as u128);
        assert((scaled as int) / (self.duration as int) <= 65536) by (nonlinear_arith)
            requires
                scaled <= self.duration * 65536,
                self.duration > 0,
        ;
        fixed as i64
    }
}

/// The progress at `now` of a slide of `duration` that ends at `deadline`.
pub open spec fn progress_at(deadline: u64, now: u64, duration: u64) -> Progress {
    Progress {
        remaining: if now >= deadline {
            0
        } else {
            (deadline - now) as u64
        },
        duration,
    }
}

pub fn progress(deadline: u64, now: u64, duration: u64) -> (r: Progress)
    ensures
        r == progress_at(deadline, now, duration),
{
    let remaining: u64 = if now >= deadline {
        0
    } else {
        deadline - now
    };
    Progress { remaining, duration }
}

/// Progress is `1 - (deadline - now) / duration` up to the deadline, never
/// goes down as the clock moves on, and is exactly one from the deadline on.
pub proof fn lemma_progress_monotonic(deadline: u64, now1: u64, now2: u64, duration: u64)
    requires
        now1 <= now2,
    ensures
        now1 <= deadline ==> progress_at(deadline, now1, duration).elapsed() == duration - (
        deadline - now1),
        progress_at(deadline, now1, duration).elapsed() <= progress_at(
            deadline,
            now2,
            duration,
        ).elapsed(),
        progress_at(deadline, deadline, duration).elapsed() == duration,
        now2 >= deadline ==> progress_at(deadline, now2, duration).elapsed() == duration,
        progress_at(deadline, now2, duration).is_complete() <==> now2 >= deadline,
{
}

} // verus!
