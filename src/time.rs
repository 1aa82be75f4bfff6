//! Instants in UTC, held as whole seconds since the Unix epoch and the
//! nanoseconds within that second.

use chrono::{DateTime, TimeDelta, Utc};
use vstd::prelude::*;

verus! {

/// Earliest second that a UTC date and time can stand for (the first
/// second of year -262143).
pub const MIN_SECS: i64 = -8334601228800;

/// Latest second that a UTC date and time can stand for (the last second
/// of year 262142).
pub const MAX_SECS: i64 = 8210266876799;

/// Nanoseconds in one second.
pub const NANOS_PER_SEC: u32 = 1_000_000_000;

/// An absolute instant in UTC.
#[derive(Clone, Copy, Debug, PartialEq, Eq, Structural)]
pub struct Timestamp {
    /// Whole seconds since 1970-01-01T00:00:00Z.
    pub secs: i64,
    /// Nanoseconds past `secs`.
    pub nanos: u32,
}

/// Whether `secs` is a second that a UTC date and time can stand for.
pub open spec fn secs_in_range(secs: int) -> bool {
    MIN_SECS <= secs <= MAX_SECS
}

impl Timestamp {
    /// A well-formed instant: a representable second and a sub-second part
    /// below one second.
    pub open spec fn wf(self) -> bool {
        &&& secs_in_range(self.secs as int)
        &&& self.nanos < NANOS_PER_SEC
    }

    /// `self` comes strictly before `other`.
    pub open spec fn spec_before(self, other: Timestamp) -> bool {
        ||| self.secs < other.secs
        ||| (self.secs == other.secs && self.nanos < other.nanos)
    }

    /// The instant `lifespan` seconds after `self`; where that instant cannot
    /// be represented, `self` itself.
    pub open spec fn spec_after_secs(self, lifespan: i64) -> Timestamp {
        if secs_in_range(self.secs + lifespan) {
            Timestamp { secs: (self.secs + lifespan) as i64, nanos: self.nanos }
        } else {
            self
        }
    }

    /// Whether `self` comes strictly before `other`.
    pub fn before(&self, other: &Timestamp) -> (r: bool)
        ensures
            r == self.spec_before(*other),
    {
        self.secs < other.secs || (self.secs == other.secs && self.nanos < other.nanos)
    }

    /// The instant `lifespan` seconds after `self`. A lifespan that would
    /// leave the representable range gives `self`: such a deadline is already
    /// reached, never unbounded.
    pub fn after_secs(&self, lifespan: i64) -> (r: Timestamp)
        requires
            self.wf(),
        ensures
            r == self.spec_after_secs(lifespan),
            r.wf(),
    {
        match checked_add_seconds(*self, lifespan) {
            Some(t) => t,
            None => *self,
        }
    }

    /// The current instant, from the system clock.
    pub fn now() -> (r: Timestamp)
        ensures
            r.wf(),
    {
        utc_now()
    }
}

/// Relies on chrono's `Utc::now`: the current instant, a representable date
/// and time no earlier than the epoch, whose sub-second part is below one
/// second (it is read from the system clock as a duration since the epoch).
#[verifier::external_body]
fn utc_now() -> (r: Timestamp)
    ensures
        r.wf(),
        r.secs >= 0,
{
    let now = Utc::now();
    Timestamp { secs: now.timestamp(), nanos: now.timestamp_subsec_nanos() }
}

/// Relies on chrono's `DateTime::checked_add_signed` with
/// `TimeDelta::try_seconds`: adding whole seconds keeps the sub-second part,
/// and gives `None` exactly where the sum leaves the representable range.
#[verifier::external_body]
fn checked_add_seconds(t: Timestamp, secs: i64) -> (r: Option<Timestamp>)
    requires
        t.wf(),
    ensures
        r is Some <==> secs_in_range(t.secs + secs),
        r matches Some(u) ==> u.secs == t.secs + secs && u.nanos == t.nanos,
{
    let start = DateTime::from_timestamp(t.secs, t.nanos)?;
    let sum = start.checked_add_signed(TimeDelta::try_seconds(secs)?)?;
    Some(Timestamp { secs: sum.timestamp(), nanos: sum.timestamp_subsec_nanos() })
}

} // verus!
