//! Instants, kept as microseconds since the Unix epoch (UTC).

use chrono::TimeZone;
use vstd::prelude::*;

verus! {

/// The whole seconds of the instant `t` (microseconds), rounded down, as
/// `DateTime::timestamp` gives them.
pub open spec fn whole_seconds(t: int) -> int {
    t / 1_000_000
}

/// The first second that chrono's `DateTime<Utc>` holds:
/// -262143-01-01T00:00:00 UTC, in seconds since the epoch.
pub const MIN_UTC_SECONDS: i64 = -8_334_601_228_800;

/// The last second that chrono's `DateTime<Utc>` holds:
/// +262142-12-31T23:59:59 UTC, in seconds since the epoch.
pub const MAX_UTC_SECONDS: i64 = 8_210_266_876_799;

/// The whole second `secs` (seconds since the epoch) is one that chrono can
/// represent.
pub open spec fn in_utc_range(secs: int) -> bool {
    MIN_UTC_SECONDS <= secs <= MAX_UTC_SECONDS
}

/// The instant `secs` whole seconds after the epoch, in microseconds, when
/// chrono can represent it.
pub open spec fn instant_of_seconds(secs: i64) -> Option<i64> {
    if in_utc_range(secs as int) {
        Some((secs * 1_000_000) as i64)
    } else {
        None
    }
}

/// Calls `Utc.timestamp_opt(secs, 0).single()` and gives the instant back in
/// microseconds. chrono's source (`DateTime::from_timestamp`) builds the
/// instant `secs` seconds after the epoch whenever its date lies between
/// `NaiveDate::MIN` (-262143-01-01) and `NaiveDate::MAX` (+262142-12-31),
/// and answers `None` otherwise; every such instant fits in `i64`
/// microseconds.
#[verifier::external_body]
pub(crate) fn utc_from_seconds(secs: i64) -> (r: Option<i64>)
    ensures
        r == instant_of_seconds(secs),
{
    match chrono::Utc.timestamp_opt(secs, 0).single() {
        Some(instant) => Some(instant.timestamp_micros()),
        None => None,
    }
}

/// The whole seconds of the instant `t`, rounded down (`DateTime::timestamp`).
pub fn seconds_of(t: i64) -> (s: i64)
    ensures
        s == whole_seconds(t as int),
{
    if t >= 0 {
        t / 1_000_000
    } else {
        let u: i64 = -(t + 1);
        let q: i64 = u / 1_000_000;
        assert(q * 1_000_000 <= u < q * 1_000_000 + 1_000_000) by (nonlinear_arith)
            requires
                q == u / 1_000_000,
                u >= 0,
        ;
        assert((-q - 1) * 1_000_000 <= t < (-q - 1) * 1_000_000 + 1_000_000) by (nonlinear_arith)
            requires
                q * 1_000_000 <= u < q * 1_000_000 + 1_000_000,
                u == -(t + 1),
        ;
        assert(t / 1_000_000 == -q - 1) by (nonlinear_arith)
            requires
                (-q - 1) * 1_000_000 <= t < (-q - 1) * 1_000_000 + 1_000_000,
        ;
        -q - 1
    }
}

} // verus!
