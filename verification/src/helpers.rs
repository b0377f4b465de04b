//! Arithmetic that never leaves the `i64` range, the clock, the dice, and
//! how long ago an instant was.
//!
//! Instants are counted in microseconds since the Unix epoch.

use crate::text::{decimal, decimal_string};
use rand::Rng;
use rand::seq::SliceRandom;
use vstd::prelude::*;

verus! {

/// The sum `a + b` where it fits in an `i64`, and `a` unchanged where it does not.
pub open spec fn spec_overflow_add(a: int, b: int) -> int {
    if i64::MIN <= a + b <= i64::MAX {
        a + b
    } else {
        a
    }
}

/// The difference `a - b` where it fits in an `i64`, and `a` unchanged where it does not.
pub open spec fn spec_overflow_sub(a: int, b: int) -> int {
    if i64::MIN <= a - b <= i64::MAX {
        a - b
    } else {
        a
    }
}

/// Adds `b` to `a`; an addition that would overflow leaves `a` as it was.
pub fn overflow_add(a: i64, b: i64) -> (r: i64)
    ensures
        r == spec_overflow_add(a as int, b as int),
{
    match a.checked_add(b) {
        Some(x) => x,
        None => a,
    }
}

/// Subtracts `b` from `a`; a subtraction that would overflow leaves `a` as it was.
pub fn _overflow_sub(a: i64, b: i64) -> (r: i64)
    ensures
        r == spec_overflow_sub(a as int, b as int),
{
    match a.checked_sub(b) {
        Some(x) => x,
        None => a,
    }
}

/// The present instant, from `chrono::Utc::now` and
/// `DateTime::timestamp_micros`. Nothing is claimed of the result: it is
/// whatever the system clock says. (`Utc::now` panics where the system clock
/// stands before the Unix epoch.)
#[verifier::external_body]
pub(crate) fn now_micros() -> i64 {
    chrono::Utc::now().timestamp_micros()
}

/// A number from `rand::random::<usize>`. Nothing is claimed of the result.
#[verifier::external_body]
pub(crate) fn random_pick() -> usize {
    rand::random::<usize>()
}

/// One throw of a die, from `Rng::gen_range(1..7)` on `rand::thread_rng()`:
/// the result lies in the range handed over, from one to six.
#[verifier::external_body]
pub(crate) fn dice_roll() -> (r: i32)
    ensures
        1 <= r <= 6,
{
    rand::thread_rng().gen_range(1..7)
}

/// One of the items, from `SliceRandom::choose` on `rand::thread_rng()`:
/// nothing for an empty list, else an item of the list; which one is not
/// claimed.
#[verifier::external_body]
pub(crate) fn choose_item(items: &Vec<String>) -> (r: Option<String>)
    ensures
        r is None <==> items.len() == 0,
        r is Some ==> exists|i: int| 0 <= i < items.len() && items[i]@ == (#[trigger] r->0@),
{
    items.choose(&mut rand::thread_rng()).cloned()
}

/// The microseconds of one second.
pub const SECOND: i64 = 1_000_000;

/// The microseconds of one minute.
pub const MINUTE: i64 = 60_000_000;

/// The microseconds of one hour.
pub const HOUR: i64 = 3_600_000_000;

/// The microseconds of one day.
pub const DAY: i64 = 86_400_000_000;

/// The whole units of `unit` microseconds in a span, rounded towards zero.
pub open spec fn whole(span: int, unit: int) -> int {
    if span >= 0 {
        span / unit
    } else {
        -((-span) / unit)
    }
}

/// How long before `now` the instant `then` was, in words: in seconds under
/// a minute, in minutes under an hour, in hours under a day, in days under
/// thirty days, in months of thirty days under a year of 365 days, and in
/// such years from there on.
pub open spec fn relative_time(now: int, then: int) -> Seq<char> {
    let span = now - then;
    if span < MINUTE {
        decimal(whole(span, SECOND as int)) + " second(s) ago"@
    } else if span < HOUR {
        decimal(whole(span, MINUTE as int)) + " minute(s) ago"@
    } else if span < DAY {
        decimal(whole(span, HOUR as int)) + " hour(s) ago"@
    } else if span < 30 * DAY {
        decimal(whole(span, DAY as int)) + " day(s) ago"@
    } else if span < 365 * DAY {
        decimal(whole(span, DAY as int) / 30) + " month(s) ago"@
    } else {
        decimal(whole(span, DAY as int) / 365) + " year(s) ago"@
    }
}

/// The whole units of `unit` microseconds between `then` and `now`, rounded
/// towards zero.
pub fn whole_units(now: i64, then: i64, unit: i64) -> (r: i64)
    requires
        unit >= SECOND,
    ensures
        r == whole(now - then, unit as int),
{
    let span: i128 = now as i128 - then as i128;
    let unit_wide: i128 = unit as i128;
    if span >= 0 {
        proof {
            vstd::arithmetic::div_mod::lemma_div_is_ordered_by_denominator(
                span as int,
                1_000_000,
                unit as int,
            );
        }
        let q = span / unit_wide;
        q as i64
    } else {
        proof {
            vstd::arithmetic::div_mod::lemma_div_is_ordered_by_denominator(
                -span as int,
                1_000_000,
                unit as int,
            );
        }
        let q = (-span) / unit_wide;
        (-q) as i64
    }
}

/// Says how long before `now` the instant `then` was.
pub fn relative_time_between(now: i64, then: i64) -> (r: String)
    ensures
        r@ == relative_time(now as int, then as int),
{
    let span: i128 = now as i128 - then as i128;
    let (count, unit): (i64, &str) = if span < MINUTE as i128 {
        (whole_units(now, then, SECOND), " second(s) ago")
    } else if span < HOUR as i128 {
        (whole_units(now, then, MINUTE), " minute(s) ago")
    } else if span < DAY as i128 {
        (whole_units(now, then, HOUR), " hour(s) ago")
    } else if span < 30 * (DAY as i128) {
        (whole_units(now, then, DAY), " day(s) ago")
    } else if span < 365 * (DAY as i128) {
        (whole_units(now, then, DAY) / 30, " month(s) ago")
    } else {
        (whole_units(now, then, DAY) / 365, " year(s) ago")
    };
    let mut r = decimal_string(count);
    r.append(unit);
    r
}

/// Says how long ago the instant `datetime` was, by the system clock.
pub fn relative_time_string(datetime: i64) -> (r: String)
    ensures
        exists|now: i64| r@ == relative_time(now as int, datetime as int),
{
    let now = now_micros();
    relative_time_between(now, datetime)
}

} // verus!
