//! The clock: the time of the system, or a time that the caller advances.
//!
//! Times are counted in nanoseconds from an origin that the caller chooses.
//! The clock itself never reads the time of the system: the caller does,
//! and passes it in.

use vstd::prelude::*;

verus! {

/// The number of nanoseconds in a millisecond.
pub const NANOS_PER_MILLI: u128 = 1_000_000;

/// A point in time.
#[derive(Debug, PartialEq, Eq, Clone, Copy, Structural)]
pub struct Instant {
    /// The nanoseconds since the origin.
    pub nanos: u128,
}

/// A span of time.
#[derive(Debug, PartialEq, Eq, Clone, Copy, Structural)]
pub struct Duration {
    /// The nanoseconds of the span.
    pub nanos: u128,
}

impl Duration {
    /// The span of `millis` milliseconds.
    #[verifier::allow_in_spec]
    pub fn from_millis(millis: u64) -> Duration
        returns
            (Duration { nanos: (millis * NANOS_PER_MILLI) as u128 }),
    {
        Duration { nanos: (millis as u128) * NANOS_PER_MILLI }
    }

    /// The whole milliseconds of the span.
    #[verifier::allow_in_spec]
    pub fn as_millis(&self) -> u128
        returns
            self.nanos / NANOS_PER_MILLI,
    {
        self.nanos / NANOS_PER_MILLI
    }
}

/// Where a clock takes its time from.
#[derive(Debug, PartialEq, Eq, Clone, Copy, Structural)]
pub enum TimeSource {
    /// The time of the system.
    System,
    /// A time that stands still until the caller advances it: the start of
    /// the clock plus this offset.
    Simulated { offset: Duration },
}

/// A clock.
///
/// A clock has one owner, which alone advances a simulated time: whoever
/// shares a clock shares this one value, so that all of them see the same
/// time.
#[derive(Debug, PartialEq, Eq)]
pub struct Clock {
    /// The time at which the clock was made.
    pub start: Instant,
    /// Where the clock takes its time from.
    pub time: TimeSource,
}

impl Clock {
    /// A clock that shows the time of the system. `now` is that time.
    pub fn system(now: Instant) -> (c: Clock)
        ensures
            c == (Clock { start: now, time: TimeSource::System }),
    {
        Clock { start: now, time: TimeSource::System }
    }

    /// A clock that shows a simulated time, which starts at `now` and is
    /// moved by [`Clock::advance`] only.
    pub fn simulated(now: Instant) -> (c: Clock)
        ensures
            c == (Clock {
                start: now,
                time: TimeSource::Simulated { offset: Duration { nanos: 0 } },
            }),
    {
        Clock { start: now, time: TimeSource::Simulated { offset: Duration { nanos: 0 } } }
    }

    /// The tick of the instant `t`: the whole milliseconds from the start of
    /// the clock to `t`, and zero for an instant before the start.
    pub open spec fn spec_instant_to_tick(&self, t: Instant) -> int {
        if t.nanos >= self.start.nanos {
            (t.nanos - self.start.nanos) / (NANOS_PER_MILLI as int)
        } else {
            0
        }
    }

    /// Converts an instant to a tick, which the time driver counts in.
    pub fn instant_to_tick(&self, t: Instant) -> (tick: u64)
        requires
            self.spec_instant_to_tick(t) <= u64::MAX,
        ensures
            tick == self.spec_instant_to_tick(t),
    {
        if t.nanos >= self.start.nanos {
            ((t.nanos - self.start.nanos) / NANOS_PER_MILLI) as u64
        } else {
            0
        }
    }

    /// Converts a tick to a span of time.
    pub fn tick_to_duration(&self, t: u64) -> (d: Duration)
        ensures
            d == Duration::from_millis(t),
    {
        Duration::from_millis(t)
    }

    /// The instant that the clock shows when the time of the system is
    /// `system`.
    pub open spec fn spec_now(&self, system: Instant) -> int {
        match self.time {
            TimeSource::System => system.nanos as int,
            TimeSource::Simulated { offset } => self.start.nanos + offset.nanos,
        }
    }

    /// Returns the current instant, where `system` is the time of the
    /// system.
    pub fn now(&self, system: Instant) -> (t: Instant)
        requires
            self.spec_now(system) <= u128::MAX,
        ensures
            t.nanos == self.spec_now(system),
    {
        match self.time {
            TimeSource::System => system,
            TimeSource::Simulated { offset } => Instant { nanos: self.start.nanos + offset.nanos },
        }
    }

    /// Returns the current tick, where `system` is the time of the system.
    pub fn tick(&self, system: Instant) -> (tick: u64)
        requires
            self.spec_now(system) <= u128::MAX,
            self.spec_instant_to_tick(Instant { nanos: self.spec_now(system) as u128 })
                <= u64::MAX,
        ensures
            tick == self.spec_instant_to_tick(Instant { nanos: self.spec_now(system) as u128 }),
    {
        let now = self.now(system);
        self.instant_to_tick(now)
    }

    /// The clock after its simulated time was advanced.
    pub open spec fn advanced(self, duration: Duration) -> Clock {
        match self.time {
            TimeSource::System => self,
            TimeSource::Simulated { offset } => Clock {
                time: TimeSource::Simulated {
                    offset: Duration { nanos: (offset.nanos + duration.nanos) as u128 },
                },
                ..self
            },
        }
    }

    /// Advances the simulated time. The clock of the system cannot be
    /// advanced.
    pub fn advance(&mut self, duration: Duration)
        requires
            old(self).time is Simulated,
            old(self).time->offset.nanos + duration.nanos <= u128::MAX,
        ensures
            *final(self) == old(self).advanced(duration),
    {
        match self.time {
            TimeSource::System => {},
            TimeSource::Simulated { offset } => {
                self.time =
                TimeSource::Simulated { offset: Duration { nanos: offset.nanos + duration.nanos } };
            },
        }
    }
}

/// Advances of a simulated clock add up: two advances show the time that
/// one advance by their sum shows, an advance by nothing changes nothing,
/// and the time shown after an advance is later by the advance.
pub proof fn law_advances_add_up(c: Clock, a: Duration, b: Duration, system: Instant)
    requires
        c.time is Simulated,
        c.time->offset.nanos + a.nanos + b.nanos <= u128::MAX,
    ensures
        c.advanced(a).advanced(b) == c.advanced(Duration { nanos: (a.nanos + b.nanos) as u128 }),
        c.advanced(Duration { nanos: 0 }) == c,
        c.advanced(a).spec_now(system) == c.spec_now(system) + a.nanos,
        c.advanced(a).start == c.start,
{
}

} // verus!
