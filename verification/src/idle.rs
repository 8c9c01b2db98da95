//! Bookkeeping of the idle task, which measures how much of the processor's
//! time no other task asked for.

use vstd::prelude::*;

verus! {

/// Cycles of the processor clock in one microsecond.
pub const USECOND: u32 = 480;

/// Idle cycles to gather before a measurement is taken: a hundredth of a second.
pub const TIME_LIMIT: u32 = 4_800_000;

/// The cycles between two readings of the free-running cycle counter. When
/// the counter has wrapped in between, the way up to its highest value and
/// the way from zero to `now` are added.
pub open spec fn elapsed_ticks(now: u32, start: u32) -> int {
    if now >= start {
        now - start
    } else {
        now + (u32::MAX - start)
    }
}

/// The cycles that passed from the reading `start` to the reading `now`.
pub fn calculate_elapsed_dwt_ticks(now: u32, start: &mut u32) -> (elapsed: u32)
    ensures
        elapsed == elapsed_ticks(now, *old(start)),
        *final(start) == *old(start),
{
    if now >= *start {
        now - *start
    } else {
        now + (u32::MAX - *start)
    }
}

/// One finished measurement.
#[derive(Clone, Copy, Debug, PartialEq, Eq)]
pub struct IdleMeasurement {
    /// Cycles spent idling.
    pub idling: u32,
    /// Cycles that passed in all.
    pub elapsed: u32,
}

/// What the idle task keeps between its rounds.
#[derive(Clone, Copy, Debug)]
pub struct IdleMeter {
    idling: u32,
    start: u32,
}

impl IdleMeter {
    #[verifier::type_invariant]
    spec fn bounded(self) -> bool {
        self.idling < TIME_LIMIT + USECOND
    }

    /// Idle cycles gathered since the measurement began.
    pub closed spec fn idling(&self) -> int {
        self.idling as int
    }

    /// The reading of the cycle counter at which the measurement began.
    pub closed spec fn start(&self) -> u32 {
        self.start
    }

    /// Whether enough idle cycles are gathered for a measurement.
    pub open spec fn due(&self) -> bool {
        self.idling() >= TIME_LIMIT
    }

    /// A measurement that begins at the reading `start`.
    pub fn new(start: u32) -> (meter: Self)
        ensures
            meter.idling() == 0,
            meter.start() == start,
    {
        IdleMeter { idling: 0, start }
    }

    /// Accounts for one microsecond spent idling and says whether a
    /// measurement is due. Once one is due nothing more is gathered until
    /// it has been taken.
    pub fn idled(&mut self) -> (due: bool)
        ensures
            final(self).start() == old(self).start(),
            final(self).idling() == if old(self).due() {
                old(self).idling()
            } else {
                old(self).idling() + USECOND
            },
            due == final(self).due(),
    {
        proof {
            use_type_invariant(&*self);
        }
        if self.idling < TIME_LIMIT {
            self.idling += USECOND;
        }
        self.idling >= TIME_LIMIT
    }

    /// What the measurement amounts to when it is closed at the reading `now`.
    pub fn measure(&self, now: u32) -> (measurement: IdleMeasurement)
        ensures
            measurement.idling == self.idling(),
            measurement.elapsed == elapsed_ticks(now, self.start()),
    {
        let mut start = self.start;
        let elapsed = calculate_elapsed_dwt_ticks(now, &mut start);
        IdleMeasurement { idling: self.idling, elapsed }
    }

    /// Begins the next measurement at the reading `start`.
    pub fn restart(&mut self, start: u32)
        ensures
            final(self).idling() == 0,
            final(self).start() == start,
    {
        *self = IdleMeter { idling: 0, start };
    }
}

} // verus!
