//! Repeating timers, kept by bevy's `Timer` and driven by elapsed time in
//! nanoseconds.
use vstd::prelude::*;

verus! {

/// Nanoseconds in one millisecond.
pub const NANOS_PER_MILLI: u64 = 1_000_000;

/// Nanoseconds in one second.
pub const NANOS_PER_SECOND: u64 = 1_000_000_000;

#[verifier::external_type_specification]
#[verifier::external_body]
pub struct ExTimer(bevy::time::Timer);

/// A remainder modulo a positive period lies below the period.
pub proof fn lemma_mod_below(x: int, p: int)
    requires
        0 <= x,
        0 < p,
    ensures
        0 <= x % p < p,
{
    assert(0 <= x % p < p) by (nonlinear_arith)
        requires
            0 <= x,
            0 < p,
    ;
}

/// A repeating bevy timer, with the period and the time accumulated towards
/// the next completion kept alongside it as ghost state. The bevy timer is
/// private and only `repeating` builds one, so it is never paused, its
/// period is never zero, and its accumulated time stays below the period.
pub struct FrameTimer {
    timer: bevy::time::Timer,
    period: Ghost<nat>,
    elapsed: Ghost<nat>,
    fired: Ghost<bool>,
}

impl FrameTimer {
    /// The period, in nanoseconds.
    pub closed spec fn period(&self) -> nat {
        self.period@
    }

    /// The time accumulated towards the next completion, in nanoseconds.
    pub closed spec fn elapsed(&self) -> nat {
        self.elapsed@
    }

    /// Whether the last tick completed at least one period.
    pub closed spec fn fired(&self) -> bool {
        self.fired@
    }

    /// The period is positive and the accumulated time below it.
    pub open spec fn wf(&self) -> bool {
        0 < self.period() && self.elapsed() < self.period()
    }

    /// Relies on bevy's `Timer::new` with `TimerMode::Repeating`: the new
    /// timer has the given period, nothing elapsed, and is not finished.
    #[verifier::external_body]
    pub fn repeating(period_nanos: u64) -> (r: FrameTimer)
        requires
            period_nanos > 0,
        ensures
            r.period() == period_nanos,
            r.elapsed() == 0,
            !r.fired(),
    {
        FrameTimer {
            timer: bevy::time::Timer::new(
                std::time::Duration::from_nanos(period_nanos),
                bevy::time::TimerMode::Repeating,
            ),
            period: Ghost(period_nanos as nat),
            elapsed: Ghost(0),
            fired: Ghost(false),
        }
    }

    /// Relies on bevy's `Timer::tick` on an unpaused repeating timer: the
    /// elapsed time grows by `delta_nanos` (below the period plus a `u64`,
    /// so the `Duration` sum cannot overflow); the timer is finished exactly
    /// when that reaches the period, and then keeps the remainder modulo the
    /// period.
    #[verifier::external_body]
    pub fn tick(&mut self, delta_nanos: u64)
        requires
            old(self).wf(),
        ensures
            final(self).period() == old(self).period(),
            final(self).elapsed() == (old(self).elapsed() + delta_nanos) % (old(self).period() as int),
            final(self).fired() == (old(self).elapsed() + delta_nanos >= old(self).period()),
    {
        self.timer.tick(std::time::Duration::from_nanos(delta_nanos));
    }

    /// Relies on bevy's `Timer::finished`: the flag that the last `tick`
    /// set, which for a repeating timer says whether it reached the period.
    #[verifier::external_body]
    pub fn finished(&self) -> (r: bool)
        ensures
            r == self.fired(),
    {
        self.timer.finished()
    }
}

} // verus!
