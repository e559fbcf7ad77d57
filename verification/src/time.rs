//! Points in time, held as plain values.

use vstd::prelude::*;

verus! {

/// An instant in UTC: whole seconds since the Unix epoch and the
/// sub-second nanoseconds.
#[derive(Debug, Clone, Copy, PartialEq, Eq, Structural)]
pub struct Timestamp {
    pub secs: i64,
    pub nanos: u32,
}

/// Seconds bounds of the instants `chrono` can represent (years -262143
/// to 262142); every `DateTime<Utc>` lies between them.
pub open spec fn chrono_min_secs() -> int {
    -8_334_601_315_200
}

pub open spec fn chrono_max_secs() -> int {
    8_210_266_876_799
}

/// The current time from `chrono::Utc::now`, as seconds and nanoseconds.
/// It depends on the system clock. `Utc::now` reads the time elapsed since
/// the Unix epoch (and panics on a clock set before it), so the seconds are
/// not negative and lie in `chrono`'s range, and the nanoseconds are those
/// of a `Duration`, below one second's worth.
#[verifier::external_body]
pub(crate) fn utc_now() -> (t: Timestamp)
    ensures
        0 <= t.secs <= chrono_max_secs(),
        t.nanos < 1_000_000_000,
{
    let now = chrono::Utc::now();
    Timestamp { secs: now.timestamp(), nanos: now.timestamp_subsec_nanos() }
}

} // verus!
