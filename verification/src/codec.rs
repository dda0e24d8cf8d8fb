//! Scalar conventions of the native boundary: the two-field timestamp and the
//! one-byte boolean.
#![allow(non_snake_case)]

use core::time::Duration;
use vstd::prelude::*;

verus! {

/// Number of nanoseconds in one second.
pub const NANOS_PER_SEC: u64 = 1_000_000_000;

/// A point in time as the native side expects it: whole seconds since the
/// Unix epoch and the sub-second remainder in nanoseconds.
#[derive(Clone, Copy, Debug, PartialEq, Eq, Structural)]
pub struct UnixTime {
    /// Whole seconds since the Unix epoch.
    pub sec: u64,
    /// Nanoseconds past `sec`.
    pub nsec: u64,
}

impl UnixTime {
    /// The sub-second field stays below one second.
    pub open spec fn wf(&self) -> bool {
        self.nsec < NANOS_PER_SEC
    }

    /// Total nanoseconds since the epoch.
    pub open spec fn total_nanos(&self) -> int {
        self.sec as int * (NANOS_PER_SEC as int) + self.nsec as int
    }

    /// `self` is not later than `other`.
    pub open spec fn spec_not_after(&self, other: &UnixTime) -> bool {
        self.sec < other.sec || (self.sec == other.sec && self.nsec <= other.nsec)
    }

    /// Builds a timestamp from whole seconds and a sub-second remainder.
    pub fn from_parts(secs: u64, subsec_nanos: u32) -> (t: UnixTime)
        ensures
            t.sec == secs,
            t.nsec == subsec_nanos as u64,
    {
        UnixTime { sec: secs, nsec: subsec_nanos as u64 }
    }

    /// Builds a timestamp from what the clock measured since the epoch. A
    /// clock that stands before the epoch reads as the epoch itself.
    pub fn from_elapsed(elapsed: Option<(u64, u32)>) -> (t: UnixTime)
        ensures
            t == Self::spec_from_elapsed(elapsed),
    {
        match elapsed {
            Some((secs, nanos)) => Self::from_parts(secs, nanos),
            None => UnixTime { sec: 0, nsec: 0 },
        }
    }

    /// The timestamp that stands for a clock measurement.
    pub open spec fn spec_from_elapsed(elapsed: Option<(u64, u32)>) -> UnixTime {
        match elapsed {
            Some((secs, nanos)) => UnixTime { sec: secs, nsec: nanos as u64 },
            None => UnixTime { sec: 0, nsec: 0 },
        }
    }

    /// Whether `self` is not later than `other`.
    pub fn not_after(&self, other: &UnixTime) -> (b: bool)
        ensures
            b == self.spec_not_after(other),
            self.wf() && other.wf() ==> (b <==> self.total_nanos() <= other.total_nanos()),
    {
        proof {
            if self.wf() && other.wf() {
                lemma_order_by_fields(*self, *other);
            }
        }
        self.sec < other.sec || (self.sec == other.sec && self.nsec <= other.nsec)
    }
}

/// On well-formed timestamps, comparing field by field is comparing the
/// total number of nanoseconds.
pub proof fn lemma_order_by_fields(a: UnixTime, b: UnixTime)
    requires
        a.wf(),
        b.wf(),
    ensures
        a.spec_not_after(&b) <==> a.total_nanos() <= b.total_nanos(),
{
    let n = NANOS_PER_SEC as int;
    if a.sec < b.sec {
        assert(a.sec as int * n + n <= b.sec as int * n) by (nonlinear_arith)
            requires
                a.sec < b.sec,
                n > 0,
        ;
    } else if a.sec > b.sec {
        assert(b.sec as int * n + n <= a.sec as int * n) by (nonlinear_arith)
            requires
                b.sec < a.sec,
                n > 0,
        ;
    }
}

/// `SystemTime::elapsed` on the Unix epoch: the time that has passed since
/// the epoch, or `None` where the clock stands before it. Nothing is claimed
/// of the value.
#[verifier::external_body]
fn elapsed_since_epoch() -> (elapsed: Option<Duration>) {
    std::time::UNIX_EPOCH.elapsed().ok()
}

/// `Duration::as_secs`: the whole seconds of a duration. Nothing is claimed
/// of the value.
pub assume_specification[ Duration::as_secs ](d: &Duration) -> (secs: u64)
;

/// `Duration::subsec_nanos`: the fractional part of a duration in
/// nanoseconds, which is documented to stay below one second.
pub assume_specification[ Duration::subsec_nanos ](d: &Duration) -> (nanos: u32)
    ensures
        nanos < 1_000_000_000,
;

/// Samples the wall clock as a timestamp for the native side. A clock that
/// stands before the epoch reads as the epoch itself.
pub fn get_now() -> (now: UnixTime)
    ensures
        now.wf(),
{
    match elapsed_since_epoch() {
        Some(d) => UnixTime::from_elapsed(Some((d.as_secs(), d.subsec_nanos()))),
        None => UnixTime::from_elapsed(None),
    }
}

/// Reads a one-byte boolean of the native side: zero is false, anything else
/// is true.
pub fn Bool_to_bool(value: u8) -> (b: bool)
    ensures
        b == (value != 0),
{
    value != 0
}

/// Writes a host boolean as the one-byte boolean of the native side.
pub fn bool_to_Bool(value: bool) -> (raw: u8)
    ensures
        raw == (if value { 1u8 } else { 0u8 }),
{
    if value {
        1
    } else {
        0
    }
}

} // verus!
