//! Lengths of time.

use vstd::prelude::*;

verus! {

/// A length of time, to the nanosecond.
#[derive(Clone, Copy, Debug, PartialEq, Eq, Structural)]
pub struct Duration {
    pub nanos: u128,
}

/// Nanoseconds in a second.
pub const NANOS_PER_SEC: u128 = 1_000_000_000;

/// Seconds of the default credential-flow timeout.
pub const DEFAULT_CREDENTIAL_FLOW_TIMEOUT_SECS: u64 = 5;

/// The default credential-flow timeout: five seconds.
pub open spec fn default_timeout() -> Duration {
    Duration { nanos: (DEFAULT_CREDENTIAL_FLOW_TIMEOUT_SECS * NANOS_PER_SEC) as u128 }
}

/// Default credential-flow timeout, overridable by a backend request-timeout policy.
pub fn default_credential_flow_timeout() -> (d: Duration)
    ensures
        d == default_timeout(),
{
    Duration::from_secs(DEFAULT_CREDENTIAL_FLOW_TIMEOUT_SECS)
}

impl Duration {
    /// The length of `secs` seconds.
    pub fn from_secs(secs: u64) -> (d: Duration)
        ensures
            d.nanos == secs * NANOS_PER_SEC,
    {
        Duration { nanos: secs as u128 * NANOS_PER_SEC }
    }

    /// The longer of two lengths.
    pub fn max(self, other: Duration) -> (d: Duration)
        ensures
            d == longer(self, other),
    {
        if self.nanos < other.nanos {
            other
        } else {
            self
        }
    }
}

/// The longer of two lengths.
pub open spec fn longer(a: Duration, b: Duration) -> Duration {
    if a.nanos < b.nanos {
        b
    } else {
        a
    }
}

} // verus!
