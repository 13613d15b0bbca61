//! The claims that a login token carries.

use vstd::prelude::*;

use crate::domain::user::User;
use crate::text::{format_i64, signed_decimal};
use crate::time::{
    in_utc_range, seconds_of, whole_seconds, MAX_UTC_SECONDS, MIN_UTC_SECONDS,
};

verus! {

/// The claims of a login token: the user id as decimal text, the email and
/// role, and the expiry in Unix seconds.
#[derive(Debug)]
pub struct Claims {
    pub sub: String,
    pub email: String,
    pub role: String,
    pub exp: i64,
}

/// The largest number of seconds that chrono's `TimeDelta` holds.
pub const MAX_DELTA_SECONDS: i64 = 9_223_372_036_854_775;

/// The expiry `minutes` after the instant `now` (microseconds), in whole
/// seconds: `None` when chrono could not represent it (there the token
/// cannot be made).
pub open spec fn expiry_of(now: i64, minutes: i64) -> Option<i64> {
    let delta = minutes * 60;
    let exp = whole_seconds(now as int) + delta;
    if -MAX_DELTA_SECONDS <= delta <= MAX_DELTA_SECONDS && in_utc_range(exp) {
        Some(exp as i64)
    } else {
        None
    }
}

/// The expiry `minutes` after the instant `now`.
pub fn expiry(now: i64, minutes: i64) -> (r: Option<i64>)
    ensures
        r == expiry_of(now, minutes),
{
    if minutes < -153_722_867_280_912 || minutes > 153_722_867_280_912 {
        return None;
    }
    let delta = minutes * 60;
    if delta < -MAX_DELTA_SECONDS || delta > MAX_DELTA_SECONDS {
        return None;
    }
    let secs = seconds_of(now);
    assert(-9_223_372_036_855 <= secs <= 9_223_372_036_854) by (nonlinear_arith)
        requires
            secs == now / 1_000_000,
    ;
    let exp = secs + delta;
    if exp < MIN_UTC_SECONDS || exp > MAX_UTC_SECONDS {
        None
    } else {
        Some(exp)
    }
}

/// The claims for `user` at the instant `now`, expiring `minutes` later.
pub fn claims_at(user: &User, now: i64, minutes: i64) -> (r: Option<Claims>)
    ensures
        match expiry_of(now, minutes) {
            None => r is None,
            Some(exp) => r matches Some(c) && c.sub@ == signed_decimal(user.id as int) && c.email
                == user.email && c.role == user.role && c.exp == exp,
        },
{
    match expiry(now, minutes) {
        None => None,
        Some(exp) => Some(
            Claims {
                sub: format_i64(user.id),
                email: user.email.clone(),
                role: user.role.clone(),
                exp,
            },
        ),
    }
}

} // verus!
