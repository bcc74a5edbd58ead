use vstd::prelude::*;

verus! {

/// Nanoseconds in one second.
pub const NANOS_PER_SEC: u32 = 1_000_000_000;

/// Nanoseconds in one millisecond.
pub const NANOS_PER_MILLI: u32 = 1_000_000;

/// Milliseconds in one second.
pub const MILLIS_PER_SEC: u64 = 1_000;

/// The largest span a `Duration` can hold, in nanoseconds.
pub open spec fn max_duration_nanos() -> nat {
    (u64::MAX as nat) * 1_000_000_000 + 999_999_999
}

/// A span of time: whole seconds and the nanoseconds within the last second.
/// Its view is the whole span in nanoseconds.
#[derive(Clone, Copy, Debug, PartialEq, Eq, Structural)]
pub struct Duration {
    secs: u64,
    nanos: u32,
}

impl View for Duration {
    type V = nat;

    closed spec fn view(&self) -> nat {
        (self.secs as nat) * 1_000_000_000 + (self.nanos as nat)
    }
}

impl Duration {
    #[verifier::type_invariant]
    spec fn nanos_below_one_second(self) -> bool {
        self.nanos < NANOS_PER_SEC
    }

    /// The span of `secs` whole seconds.
    pub fn from_secs(secs: u64) -> (d: Duration)
        ensures
            d@ == secs * 1_000_000_000,
    {
        Duration { secs, nanos: 0 }
    }

    /// The span of `millis` milliseconds.
    pub fn from_millis(millis: u64) -> (d: Duration)
        ensures
            d@ == millis * 1_000_000,
    {
        let secs: u64 = millis / MILLIS_PER_SEC;
        let rest: u64 = millis % MILLIS_PER_SEC;
        let nanos: u32 = (rest as u32) * NANOS_PER_MILLI;
        assert((secs as nat) * 1_000_000_000 + (nanos as nat) == millis * 1_000_000)
            by (nonlinear_arith)
            requires
                secs == millis / 1000,
                rest == millis % 1000,
                nanos == rest * 1_000_000,
        ;
        Duration { secs, nanos }
    }

    /// The largest representable span.
    pub fn max_value() -> (d: Duration)
        ensures
            d@ == max_duration_nanos(),
    {
        Duration { secs: u64::MAX, nanos: NANOS_PER_SEC - 1 }
    }

    /// The sum of two spans, or the largest span where the sum does not fit.
    pub fn saturating_add(self, rhs: Duration) -> (d: Duration)
        ensures
            d@ == if self@ + rhs@ <= max_duration_nanos() {
                self@ + rhs@
            } else {
                max_duration_nanos()
            },
    {
        proof {
            use_type_invariant(self);
            use_type_invariant(rhs);
        }
        let nanos_sum: u32 = self.nanos + rhs.nanos;
        let (carry, nanos): (u64, u32) = if nanos_sum >= NANOS_PER_SEC {
            (1, nanos_sum - NANOS_PER_SEC)
        } else {
            (0, nanos_sum)
        };
        match self.secs.checked_add(rhs.secs) {
            Some(s) => match s.checked_add(carry) {
                Some(secs) => Duration { secs, nanos },
                None => Duration::max_value(),
            },
            None => Duration::max_value(),
        }
    }

    /// The whole seconds of the span.
    pub fn as_secs(&self) -> (s: u64)
        ensures
            s == self@ / 1_000_000_000,
    {
        proof {
            use_type_invariant(self);
        }
        self.secs
    }

    /// The nanoseconds of the span beyond its whole seconds.
    pub fn subsec_nanos(&self) -> (n: u32)
        ensures
            n == self@ % 1_000_000_000,
    {
        proof {
            use_type_invariant(self);
        }
        self.nanos
    }
}

} // verus!
