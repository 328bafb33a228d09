//! Points in time, as a handler sees them.

use vstd::prelude::*;

verus! {

/// Nanoseconds in one second.
pub const NANOS_PER_SEC: u128 = 1_000_000_000;

/// A reading of a monotonic clock: the time that has passed since an origin
/// that the caller fixes once, for example the start of the process.
#[derive(Clone, Copy, Debug, PartialEq, Eq, Structural)]
pub struct Timestamp {
    nanos: u128,
}

impl View for Timestamp {
    type V = nat;

    /// The reading in nanoseconds since the origin.
    closed spec fn view(&self) -> nat {
        self.nanos as nat
    }
}

/// Whole seconds that lie between `earlier` and `later`, both in nanoseconds.
/// A `later` that precedes `earlier` counts as no time at all.
pub open spec fn elapsed_secs(earlier: nat, later: nat) -> nat {
    if later >= earlier {
        ((later - earlier) / (NANOS_PER_SEC as int)) as nat
    } else {
        0
    }
}

impl Timestamp {
    /// The reading `nanos` nanoseconds after the origin.
    pub fn from_nanos(nanos: u128) -> (t: Timestamp)
        ensures
            t@ == nanos,
    {
        Timestamp { nanos }
    }

    /// The reading `secs` whole seconds after the origin.
    pub fn from_secs(secs: u64) -> (t: Timestamp)
        ensures
            t@ == secs * NANOS_PER_SEC,
    {
        assert(secs * NANOS_PER_SEC <= u64::MAX * NANOS_PER_SEC) by (nonlinear_arith)
            requires
                secs <= u64::MAX,
                NANOS_PER_SEC == 1_000_000_000,
        ;
        Timestamp { nanos: (secs as u128) * NANOS_PER_SEC }
    }

    /// The reading in nanoseconds since the origin.
    pub fn as_nanos(&self) -> (n: u128)
        ensures
            n == self@,
    {
        self.nanos
    }

    /// Whole seconds from `earlier` up to this reading; zero when `earlier`
    /// is the later of the two.
    pub fn secs_since(&self, earlier: Timestamp) -> (secs: u128)
        ensures
            secs == elapsed_secs(earlier@, self@),
    {
        if self.nanos >= earlier.nanos {
            (self.nanos - earlier.nanos) / NANOS_PER_SEC
        } else {
            0
        }
    }
}

} // verus!
