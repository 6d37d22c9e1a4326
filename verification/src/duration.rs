//! A span of time, stored as whole seconds plus a subsecond nanosecond
//! remainder, exactly as the host's monotonic clock reports elapsed time.
//! Its mathematical view is the total number of nanoseconds.

use vstd::prelude::*;

verus! {

/// Nanoseconds in one second; the `nanos` field always stays below it.
pub const NANOS_PER_SEC: u32 = 1_000_000_000;

/// A non-negative span of time: `secs` whole seconds plus `nanos`
/// subsecond nanoseconds.
#[derive(Clone, Copy, Debug, PartialEq, Eq, Structural)]
pub struct Dur {
    pub secs: u64,
    pub nanos: u32,
}

impl View for Dur {
    type V = int;

    /// The total number of nanoseconds this span holds.
    open spec fn view(&self) -> int {
        self.secs as int * (NANOS_PER_SEC as int) + self.nanos as int
    }
}

/// The largest total-nanosecond value a `Dur` can represent.
pub open spec fn dur_max_nanos() -> int {
    u64::MAX as int * (NANOS_PER_SEC as int) + (NANOS_PER_SEC as int - 1)
}

impl Dur {
    /// Well-formedness: the subsecond part never reaches a full second.
    pub open spec fn wf(self) -> bool {
        self.nanos < NANOS_PER_SEC
    }

    /// The zero-length span.
    pub fn zero() -> (d: Dur)
        ensures
            d.wf(),
            d@ == 0,
    {
        Dur { secs: 0, nanos: 0 }
    }

    /// Builds a span from seconds and a subsecond nanosecond remainder.
    pub fn new(secs: u64, nanos: u32) -> (d: Dur)
        requires
            nanos < NANOS_PER_SEC,
        ensures
            d.wf(),
            d@ == secs as int * (NANOS_PER_SEC as int) + nanos as int,
    {
        Dur { secs, nanos }
    }

    /// Builds a span of whole seconds.
    pub fn from_secs(secs: u64) -> (d: Dur)
        ensures
            d.wf(),
            d@ == secs as int * (NANOS_PER_SEC as int),
    {
        Dur { secs, nanos: 0 }
    }

    /// Builds a span of whole milliseconds.
    pub fn from_millis(millis: u64) -> (d: Dur)
        ensures
            d.wf(),
            d@ == millis as int * 1_000_000,
    {
        let secs: u64 = millis / 1000;
        let rem: u64 = millis % 1000;
        let nanos: u32 = (rem as u32) * 1_000_000;
        proof {
            assert(millis as int == 1000 * (secs as int) + rem as int) by {
                vstd::arithmetic::div_mod::lemma_fundamental_div_mod(millis as int, 1000);
            };
            assert(secs as int * (NANOS_PER_SEC as int) + rem as int * 1_000_000
                == (1000 * (secs as int) + rem as int) * 1_000_000) by (nonlinear_arith);
        }
        Dur { secs, nanos }
    }

    /// True exactly when the span is zero.
    pub fn is_zero(&self) -> (r: bool)
        requires
            self.wf(),
        ensures
            r == (self@ == 0),
    {
        self.secs == 0 && self.nanos == 0
    }

    /// Compares two spans: `self <= other` on the total nanoseconds.
    pub fn le(&self, other: &Dur) -> (r: bool)
        requires
            self.wf(),
            other.wf(),
        ensures
            r == (self@ <= other@),
    {
        self.secs < other.secs || (self.secs == other.secs && self.nanos <= other.nanos)
    }

    /// Compares two spans: `self < other` on the total nanoseconds.
    pub fn lt(&self, other: &Dur) -> (r: bool)
        requires
            self.wf(),
            other.wf(),
        ensures
            r == (self@ < other@),
    {
        self.secs < other.secs || (self.secs == other.secs && self.nanos < other.nanos)
    }

    /// Adds two spans. The sum must fit; the host's duration type panics
    /// on the same overflow, which this library rules out up front.
    pub fn plus(self, other: Dur) -> (r: Dur)
        requires
            self.wf(),
            other.wf(),
            self@ + other@ <= dur_max_nanos(),
        ensures
            r.wf(),
            r@ == self@ + other@,
    {
        let nanos_sum: u32 = self.nanos + other.nanos;
        if nanos_sum >= NANOS_PER_SEC {
            Dur { secs: self.secs + other.secs + 1, nanos: nanos_sum - NANOS_PER_SEC }
        } else {
            Dur { secs: self.secs + other.secs, nanos: nanos_sum }
        }
    }

    /// Subtracts `other` from `self`; `other` must not exceed `self`.
    pub fn minus(self, other: Dur) -> (r: Dur)
        requires
            self.wf(),
            other.wf(),
            other@ <= self@,
        ensures
            r.wf(),
            r@ == self@ - other@,
    {
        if self.nanos >= other.nanos {
            Dur { secs: self.secs - other.secs, nanos: self.nanos - other.nanos }
        } else {
            Dur {
                secs: self.secs - other.secs - 1,
                nanos: self.nanos + NANOS_PER_SEC - other.nanos,
            }
        }
    }
}

/// Two well-formed spans with the same total nanoseconds are the same
/// value: the (seconds, subsecond) representation is unique.
pub proof fn lemma_view_injective(a: Dur, b: Dur)
    requires
        a.wf(),
        b.wf(),
        a@ == b@,
    ensures
        a == b,
{
    assert(a.secs == b.secs && a.nanos == b.nanos);
}

} // verus!
