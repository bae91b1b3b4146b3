//! Points in time as plain numbers.

use vstd::prelude::*;

verus! {

/// Nanoseconds in one millisecond.
pub const NANOS_PER_MILLI: u64 = 1_000_000;

/// A point on the monotonic clock, in nanoseconds since a start that the
/// caller chooses once.
#[derive(Debug, Clone, Copy, PartialEq, Eq, Structural)]
pub struct Moment {
    /// Nanoseconds since the chosen start.
    pub nanos: u64,
}

impl Moment {
    /// The moment that lies `nanos` nanoseconds after the chosen start.
    pub fn new(nanos: u64) -> (moment: Moment)
        ensures
            moment.nanos == nanos,
    {
        Moment { nanos }
    }

    /// The moment `millis` milliseconds later, or the end of the clock where
    /// that lies beyond it.
    pub open spec fn later(self, millis: u64) -> Moment {
        let nanos = self.nanos + millis * NANOS_PER_MILLI;
        Moment {
            nanos: if nanos <= u64::MAX {
                nanos as u64
            } else {
                u64::MAX
            },
        }
    }

    /// Returns the moment `millis` milliseconds after this one, stopping at the
    /// end of the clock.
    pub fn after_millis(self, millis: u64) -> (moment: Moment)
        ensures
            moment == self.later(millis),
    {
        match millis.checked_mul(NANOS_PER_MILLI) {
            Some(nanos) => Moment { nanos: self.nanos.saturating_add(nanos) },
            None => Moment { nanos: u64::MAX },
        }
    }

    /// Whether this moment has come by `now`.
    pub open spec fn due(self, now: Moment) -> bool {
        self.nanos <= now.nanos
    }

    /// Returns whether this moment has come by `now`.
    pub fn reached_by(self, now: Moment) -> (reached: bool)
        ensures
            reached == self.due(now),
    {
        self.nanos <= now.nanos
    }

    /// Whether at least `millis` milliseconds lie between `earlier` and this
    /// moment.
    pub open spec fn is_past(self, earlier: Moment, millis: u64) -> bool {
        self.nanos - earlier.nanos >= millis * NANOS_PER_MILLI
    }

    /// Returns whether at least `millis` milliseconds have gone by since
    /// `earlier`.
    pub fn elapsed_at_least(self, earlier: Moment, millis: u64) -> (elapsed: bool)
        ensures
            elapsed == self.is_past(earlier, millis),
    {
        match millis.checked_mul(NANOS_PER_MILLI) {
            Some(nanos) => {
                if self.nanos >= earlier.nanos {
                    self.nanos - earlier.nanos >= nanos
                } else {
                    false
                }
            },
            None => false,
        }
    }
}

/// Whether an optional deadline is set and has come by `now`.
pub open spec fn is_due(deadline: Option<Moment>, now: Moment) -> bool {
    deadline is Some && deadline->0.due(now)
}

/// Returns whether an optional deadline is set and has come by `now`.
pub fn deadline_due(deadline: Option<Moment>, now: Moment) -> (due: bool)
    ensures
        due == is_due(deadline, now),
{
    match deadline {
        Some(moment) => moment.reached_by(now),
        None => false,
    }
}

/// The earlier of two optional moments; an absent one never wins.
pub open spec fn earliest(a: Option<Moment>, b: Option<Moment>) -> Option<Moment> {
    match a {
        Some(x) => match b {
            Some(y) => if y.nanos < x.nanos { Some(y) } else { Some(x) },
            None => Some(x),
        },
        None => b,
    }
}

/// Returns the earlier of two optional moments.
pub fn earliest_of(a: Option<Moment>, b: Option<Moment>) -> (first: Option<Moment>)
    ensures
        first == earliest(a, b),
{
    match a {
        Some(x) => match b {
            Some(y) => if y.nanos < x.nanos { Some(y) } else { Some(x) },
            None => Some(x),
        },
        None => b,
    }
}

} // verus!
