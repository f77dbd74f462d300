//! Monotonic time as plain values.
//!
//! A [`Moment`] is a reading of a monotonic clock, counted in nanoseconds from
//! the clock's origin. All decisions of the timer are taken on moments; only
//! [`MonotonicClock`] touches the operating system's clock.

use std::time::Duration;
use std::time::Instant;
use vstd::prelude::*;

verus! {

/// Nanoseconds in one second.
pub const NANOS_PER_SECOND: u128 = 1_000_000_000;

/// The time from `earlier` to `later` in nanoseconds, zero where `later` is
/// not after `earlier`.
pub open spec fn nanos_between(later: nat, earlier: nat) -> nat {
    if later >= earlier {
        (later - earlier) as nat
    } else {
        0
    }
}

/// The whole seconds from `earlier` to `later`; a remainder below one second
/// is dropped.
pub open spec fn whole_seconds_between(later: nat, earlier: nat) -> nat {
    nanos_between(later, earlier) / (NANOS_PER_SECOND as nat)
}

/// A reading of a monotonic clock.
#[derive(Clone, Copy, Debug)]
pub struct Moment {
    nanos: u128,
}

impl View for Moment {
    type V = nat;

    closed spec fn view(&self) -> nat {
        self.nanos as nat
    }
}

impl Moment {
    /// The moment `nanos` nanoseconds after the clock's origin.
    pub fn from_nanos(nanos: u128) -> (m: Moment)
        ensures
            m@ == nanos,
    {
        Moment { nanos }
    }

    /// Nanoseconds from the clock's origin to this moment.
    pub fn as_nanos(&self) -> (nanos: u128)
        ensures
            nanos == self@,
    {
        self.nanos
    }

    /// Nanoseconds from `earlier` to this moment, zero where this moment is
    /// not the later one.
    pub fn nanos_since(&self, earlier: &Moment) -> (nanos: u128)
        ensures
            nanos == nanos_between(self@, earlier@),
    {
        if self.nanos >= earlier.nanos {
            self.nanos - earlier.nanos
        } else {
            0
        }
    }

    /// Whole seconds from `earlier` to this moment.
    pub fn whole_seconds_since(&self, earlier: &Moment) -> (secs: u128)
        ensures
            secs == whole_seconds_between(self@, earlier@),
    {
        self.nanos_since(earlier) / NANOS_PER_SECOND
    }
}

/// `std::time::Instant`, a point on the operating system's monotonic clock.
/// Nothing inside it is visible to the proofs.
#[verifier::external_type_specification]
#[verifier::external_body]
pub struct ExInstant(Instant);

/// `std::time::Instant::now` reads the operating system's monotonic clock.
/// Nothing is claimed of the instant it returns.
pub assume_specification[ Instant::now ]() -> (now: Instant)
;

/// `std::time::Instant::elapsed` gives the time from an instant to the
/// present. Nothing is claimed of the span it returns.
pub assume_specification[ Instant::elapsed ](origin: &Instant) -> (since: Duration)
;

/// `std::time::Duration::as_nanos` gives a span's length in nanoseconds.
/// `Duration` is opaque here, so nothing is claimed of the number.
pub assume_specification[ Duration::as_nanos ](span: &Duration) -> (nanos: u128)
;

/// A monotonic clock that counts from the moment it was started.
pub(crate) struct MonotonicClock {
    origin: Instant,
}

impl MonotonicClock {
    /// Starts a clock whose origin is the present.
    pub(crate) fn start() -> MonotonicClock {
        MonotonicClock { origin: Instant::now() }
    }

    /// Reads the clock: the time since its origin. The reading depends on
    /// when it is taken, so callers are proved for every moment.
    pub(crate) fn read(&self) -> Moment {
        let since = self.origin.elapsed();
        Moment::from_nanos(since.as_nanos())
    }
}

} // verus!
