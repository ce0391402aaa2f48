//! A span of time with nanosecond precision, used for track lengths and
//! playback positions.

use vstd::prelude::*;

verus! {

/// Nanoseconds in one second.
pub const NANOS_PER_SEC: u32 = 1_000_000_000;

/// The largest span a `Duration` can hold, in nanoseconds.
pub open spec fn max_total_nanos() -> nat {
    (u64::MAX as nat) * 1_000_000_000 + 999_999_999
}

/// A span of time: whole seconds plus a nanosecond remainder below one second.
#[derive(Clone, Copy, Debug, PartialEq, Eq, Structural)]
pub struct Duration {
    secs: u64,
    nanos: u32,
}

impl Duration {
    #[verifier::type_invariant]
    spec fn nanos_below_one_second(self) -> bool {
        self.nanos < 1_000_000_000
    }

    /// The span, in nanoseconds.
    pub closed spec fn total_nanos(self) -> nat {
        (self.secs as nat) * 1_000_000_000 + (self.nanos as nat)
    }

    /// The empty span.
    pub fn zero() -> (d: Duration)
        ensures
            d.total_nanos() == 0,
    {
        Duration { secs: 0, nanos: 0 }
    }

    /// A span of `secs` whole seconds.
    pub fn from_secs(secs: u64) -> (d: Duration)
        ensures
            d.total_nanos() == secs * 1_000_000_000,
    {
        Duration { secs, nanos: 0 }
    }

    /// A span of `millis` milliseconds.
    pub fn from_millis(millis: u64) -> (d: Duration)
        ensures
            d.total_nanos() == millis * 1_000_000,
    {
        let secs = millis / 1000;
        let rem = millis % 1000;
        let nanos = (rem as u32) * 1_000_000;
        Duration { secs, nanos }
    }

    /// A span of `secs` seconds plus `nanos` nanoseconds; nanoseconds beyond
    /// one second carry over into the seconds.
    pub fn new(secs: u64, nanos: u32) -> (d: Duration)
        requires
            secs + nanos / 1_000_000_000 <= u64::MAX,
        ensures
            d.total_nanos() == secs * 1_000_000_000 + nanos,
    {
        let carry = (nanos / NANOS_PER_SEC) as u64;
        let rest = nanos % NANOS_PER_SEC;
        Duration { secs: secs + carry, nanos: rest }
    }

    /// A span from a nanosecond count, which must fit in the type.
    pub fn from_total_nanos(total: u128) -> (d: Duration)
        requires
            total <= max_total_nanos(),
        ensures
            d.total_nanos() == total,
    {
        let secs = (total / 1_000_000_000) as u64;
        let nanos = (total % 1_000_000_000) as u32;
        Duration { secs, nanos }
    }

    /// The span in nanoseconds, as a machine integer.
    pub fn as_nanos(&self) -> (n: u128)
        ensures
            n == self.total_nanos(),
    {
        proof {
            use_type_invariant(self);
        }
        (self.secs as u128) * 1_000_000_000 + (self.nanos as u128)
    }

    /// Whole seconds in the span.
    pub fn as_secs(&self) -> (s: u64)
        ensures
            s == self.total_nanos() / 1_000_000_000,
    {
        proof {
            use_type_invariant(self);
        }
        self.secs
    }

    /// The part of the span below one second, in nanoseconds.
    pub fn subsec_nanos(&self) -> (n: u32)
        ensures
            n == self.total_nanos() % 1_000_000_000,
    {
        proof {
            use_type_invariant(self);
        }
        self.nanos
    }

    /// The sum of two spans, or `None` where it does not fit.
    pub fn checked_add(&self, other: &Duration) -> (r: Option<Duration>)
        ensures
            match r {
                Some(d) => d.total_nanos() == self.total_nanos() + other.total_nanos(),
                None => self.total_nanos() + other.total_nanos() > max_total_nanos(),
            },
    {
        let a = self.as_nanos();
        let b = other.as_nanos();
        proof {
            use_type_invariant(self);
            use_type_invariant(other);
        }
        let sum = a + b;
        if sum <= (u64::MAX as u128) * 1_000_000_000 + 999_999_999 {
            Some(Duration::from_total_nanos(sum))
        } else {
            None
        }
    }

    /// The sum of two spans, or the largest span where it does not fit.
    pub fn saturating_add(&self, other: &Duration) -> (r: Duration)
        ensures
            r.total_nanos() == if self.total_nanos() + other.total_nanos() <= max_total_nanos() {
                self.total_nanos() + other.total_nanos()
            } else {
                max_total_nanos()
            },
    {
        match self.checked_add(other) {
            Some(d) => {
                proof {
                    use_type_invariant(&d);
                }
                d
            },
            None => Duration { secs: u64::MAX, nanos: 999_999_999 },
        }
    }

    /// The difference of two spans, or the empty span where `other` is longer.
    pub fn saturating_sub(&self, other: &Duration) -> (r: Duration)
        ensures
            r.total_nanos() == if self.total_nanos() >= other.total_nanos() {
                self.total_nanos() - other.total_nanos()
            } else {
                0
            },
    {
        let a = self.as_nanos();
        let b = other.as_nanos();
        if a >= b {
            proof {
                use_type_invariant(self);
            }
            Duration::from_total_nanos(a - b)
        } else {
            Duration::zero()
        }
    }

    /// The shorter of two spans.
    pub fn min(self, other: Duration) -> (r: Duration)
        ensures
            r.total_nanos() == if self.total_nanos() <= other.total_nanos() {
                self.total_nanos()
            } else {
                other.total_nanos()
            },
    {
        if self.as_nanos() <= other.as_nanos() {
            self
        } else {
            other
        }
    }
}

} // verus!
