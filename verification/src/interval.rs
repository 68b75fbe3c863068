//! Lengths of time and clock readings, to the millisecond.

use vstd::prelude::*;

verus! {

/// A length of time in whole seconds and the milliseconds on top of them.
#[derive(Debug, Clone, Copy, PartialEq, Eq, Structural)]
pub struct Interval {
    secs: u64,
    millis: u64,
}

impl View for Interval {
    type V = nat;

    /// The length in milliseconds.
    closed spec fn view(&self) -> nat {
        self.secs as nat * 1000 + self.millis as nat
    }
}

impl Interval {
    #[verifier::type_invariant]
    spec fn well_formed(self) -> bool {
        self.millis < 1000
    }

    /// An interval of `millis` milliseconds.
    pub fn from_millis(millis: u64) -> (d: Self)
        ensures
            d@ == millis,
    {
        Interval { secs: millis / 1000, millis: millis % 1000 }
    }

    /// An interval of `secs` seconds.
    pub fn from_secs(secs: u64) -> (d: Self)
        ensures
            d@ == secs * 1000,
    {
        Interval { secs, millis: 0 }
    }

    /// The whole seconds in the interval.
    pub fn as_secs(&self) -> (secs: u64)
        ensures
            secs == self@ / 1000,
    {
        proof {
            use_type_invariant(self);
        }
        self.secs
    }

    /// The milliseconds beyond the whole seconds.
    pub fn subsec_millis(&self) -> (millis: u64)
        ensures
            millis == self@ % 1000,
    {
        proof {
            use_type_invariant(self);
        }
        self.millis
    }

    /// Whether the interval is at least as long as `other`.
    pub fn at_least(&self, other: &Interval) -> (r: bool)
        ensures
            r == (self@ >= other@),
    {
        proof {
            use_type_invariant(self);
            use_type_invariant(other);
        }
        self.secs > other.secs || (self.secs == other.secs && self.millis >= other.millis)
    }

    /// The shorter of twice the interval and `limit`.
    pub fn doubled_up_to(&self, limit: &Interval) -> (d: Interval)
        ensures
            d@ == (if 2 * self@ <= limit@ { 2 * self@ } else { limit@ }),
    {
        proof {
            use_type_invariant(self);
            use_type_invariant(limit);
        }
        let carry: u64 = if self.millis >= 500 { 1 } else { 0 };
        let millis: u64 = self.millis * 2 - carry * 1000;
        if self.secs > (u64::MAX - carry) / 2 {
            return *limit;
        }
        let twice: Interval = Interval { secs: self.secs * 2 + carry, millis };
        if limit.at_least(&twice) {
            twice
        } else {
            *limit
        }
    }
}

/// A clock reading in milliseconds since the Unix epoch, as far as it fits 64 bits; zero for a clock
/// that is set before the epoch.
pub fn now_ms(since_epoch_ms: Option<u128>) -> (ms: u64)
    ensures
        ms == (match since_epoch_ms {
            Some(n) => n % 0x1_0000_0000_0000_0000,
            None => 0,
        }),
{
    match since_epoch_ms {
        Some(n) => {
            assert(n as u64 == n % 0x1_0000_0000_0000_0000) by (bit_vector);
            #[verifier::truncate] (n as u64)
        },
        None => 0,
    }
}

} // verus!
