//! The timer that spaces the passes of an animation.
//!
//! Time is counted in whole nanoseconds. A timer of `rate` ticks per second has
//! a period of one second divided by `rate`. To keep that exact, progress
//! towards the next tick is counted in units of one nanosecond divided by
//! `rate`: each elapsed nanosecond adds `rate` units, and a period is as many
//! units as a second has nanoseconds.

use vstd::prelude::*;

verus! {

/// The nanoseconds of a second, which is also the units of a period.
pub const NANOS_PER_SECOND: u64 = 1_000_000_000;

/// The units gathered once `elapsed` nanoseconds are added to `phase`.
pub open spec fn progress(phase: u64, elapsed: u64, rate: i32) -> int {
    phase + elapsed * rate
}

/// Whether at least one period is complete once `elapsed` nanoseconds are added.
pub open spec fn period_elapsed(phase: u64, elapsed: u64, rate: i32) -> bool {
    progress(phase, elapsed, rate) >= NANOS_PER_SECOND
}

/// The units left over towards the next tick: whole periods are dropped.
pub open spec fn phase_after(phase: u64, elapsed: u64, rate: i32) -> u64 {
    (progress(phase, elapsed, rate) % (NANOS_PER_SECOND as int)) as u64
}

/// A repeating timer with a positive number of ticks per second.
#[derive(Debug)]
pub struct TickTimer {
    rate: i32,
    phase: u64,
}

impl TickTimer {
    #[verifier::type_invariant]
    spec fn in_period(&self) -> bool {
        self.rate > 0 && self.phase < NANOS_PER_SECOND
    }

    /// The ticks per second.
    pub closed spec fn rate(&self) -> i32 {
        self.rate
    }

    /// The units gathered towards the next tick.
    pub closed spec fn phase(&self) -> u64 {
        self.phase
    }

    /// A timer of `ticks_per_second` ticks per second with nothing gathered.
    /// There is none for a rate that is not positive.
    pub fn new(ticks_per_second: i32) -> (timer: Option<Self>)
        ensures
            timer is Some <==> ticks_per_second > 0,
            timer matches Some(t) ==> t.rate() == ticks_per_second && t.phase() == 0,
    {
        if ticks_per_second > 0 {
            Some(TickTimer { rate: ticks_per_second, phase: 0 })
        } else {
            None
        }
    }

    /// Adds `elapsed_nanos` to the timer and says whether a period was
    /// completed. However many periods were completed, the answer is one tick;
    /// what is left of the last, incomplete period is kept.
    pub fn tick(&mut self, elapsed_nanos: u64) -> (fired: bool)
        ensures
            fired == period_elapsed(old(self).phase(), elapsed_nanos, old(self).rate()),
            final(self).phase() == phase_after(old(self).phase(), elapsed_nanos, old(self).rate()),
            final(self).phase() < NANOS_PER_SECOND,
            final(self).rate() == old(self).rate(),
            final(self).rate() > 0,
    {
        proof {
            use_type_invariant(&*self);
            assert(0 <= elapsed_nanos * self.rate <= 0xffff_ffff_ffff_ffff * 0x7fff_ffff)
                by (nonlinear_arith)
                requires
                    0 <= elapsed_nanos <= 0xffff_ffff_ffff_ffff,
                    0 < self.rate <= 0x7fff_ffff,
            ;
        }
        let gathered: u128 = self.phase as u128 + (elapsed_nanos as u128) * (self.rate as u128);
        let fired = gathered >= NANOS_PER_SECOND as u128;
        self.phase = (gathered % (NANOS_PER_SECOND as u128)) as u64;
        fired
    }
}

} // verus!
