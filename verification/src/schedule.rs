//! The boundary scheduler: how long to sleep until the next aligned wake-up.
//!
//! A *boundary* is a wall-clock instant whose minute-of-hour is an exact
//! multiple of the configured interval, with zero seconds.  The scheduler is a
//! pure function of the current minute and second of the hour; it never
//! returns zero, and when the current time is within the last five seconds of
//! an interval it skips ahead one extra interval so that a slow-running cycle
//! cannot re-trigger itself at the boundary it was started for.

use vstd::prelude::*;
use vstd::arithmetic::div_mod::{
    lemma_div_multiples_vanish, lemma_fundamental_div_mod, lemma_mod_mod,
    lemma_mod_multiples_basic,
};

verus! {

/// The number of whole seconds from a time whose minute-of-hour is `minute`
/// and whose second is `second` until the scheduler's chosen wake-up instant,
/// for an interval of `timestep_mins` minutes.
///
/// `pos` is the position (in seconds) inside the current interval and `base`
/// the distance to the very next boundary; within the final five seconds of
/// an interval the next boundary is skipped.
///
/// Any positive interval is accepted.  For one that evenly divides the hour
/// the wake-up lands on a clean hour fraction (see
/// [`lemma_delay_lands_on_boundary`]); for any other interval the same
/// minute-of-hour modulo arithmetic applies, so boundaries restart at each
/// hour rather than spacing evenly across it.
pub open spec fn boundary_delay(minute: int, second: int, timestep_mins: int) -> int {
    let pos = (minute % timestep_mins) * 60 + second;
    let base = timestep_mins * 60 - pos;
    if base <= 5 {
        base + timestep_mins * 60
    } else {
        base
    }
}

/// Computes the number of seconds to sleep until the next scheduled wake-up.
///
/// Pure: the caller supplies the current minute-of-hour and second, so the
/// function can be exercised against fixed instants without a real clock.
pub fn seconds_to_timestep_next(minute: u32, second: u32, timestep_mins: u32) -> (r: u64)
    requires
        minute < 60,
        second < 60,
        timestep_mins >= 1,
    ensures
        r == boundary_delay(minute as int, second as int, timestep_mins as int),
{
    let t: u64 = timestep_mins as u64;
    let pos: u64 = ((minute as u64) % t) * 60 + (second as u64);
    let base: u64 = t * 60 - pos;
    if base <= 5 {
        base + t * 60
    } else {
        base
    }
}

/// The instant (in seconds since some hour-aligned origin) that the scheduler
/// aims at from a time `hour` hours, `minute` minutes and `second` seconds
/// past that origin.
pub open spec fn landing_instant(hour: int, minute: int, second: int, timestep_mins: int) -> int {
    hour * 3600 + minute * 60 + second + boundary_delay(minute, second, timestep_mins)
}

/// The scheduler is a pure function: the same time of day and the same
/// interval always give the same delay.
pub proof fn lemma_scheduler_deterministic(
    minute: int,
    second: int,
    timestep_mins: int,
    r1: int,
    r2: int,
)
    requires
        r1 == boundary_delay(minute, second, timestep_mins),
        r2 == boundary_delay(minute, second, timestep_mins),
    ensures
        r1 == r2,
{
}

/// The delay is never zero and never longer than one interval plus the
/// five-second skip window, whatever positive interval is configured.
pub proof fn lemma_delay_bounds(minute: int, second: int, timestep_mins: int)
    requires
        0 <= minute,
        0 <= second < 60,
        timestep_mins >= 1,
    ensures
        1 <= boundary_delay(minute, second, timestep_mins) <= timestep_mins * 60 + 5,
{
    let t = timestep_mins;
    let u = minute % t;
    assert(0 <= u < t);
    assert(u * 60 <= (t - 1) * 60) by (nonlinear_arith)
        requires u <= t - 1;
    assert(0 <= u * 60) by (nonlinear_arith)
        requires 0 <= u;
}

/// The chosen wake-up instant lands exactly on a boundary: its second is zero
/// and its minute-of-hour is an exact multiple of the interval.  This holds
/// for every interval that evenly divides the hour.
pub proof fn lemma_delay_lands_on_boundary(hour: int, minute: int, second: int, timestep_mins: int)
    requires
        0 <= hour,
        0 <= minute < 60,
        0 <= second < 60,
        1 <= timestep_mins <= 60,
        60int % timestep_mins == 0,
    ensures
        landing_instant(hour, minute, second, timestep_mins) % 60 == 0,
        ((landing_instant(hour, minute, second, timestep_mins) / 60) % 60) % timestep_mins == 0,
{
    let t = timestep_mins;
    let u = minute % t;
    let q = minute / t;
    lemma_fundamental_div_mod(minute, t);
    let d = boundary_delay(minute, second, t);
    let k: int = if t * 60 - ((minute % t) * 60 + second) <= 5 {
        2
    } else {
        1
    };
    assert(d + u * 60 + second == k * (t * 60));
    let land = landing_instant(hour, minute, second, t);
    let m60 = hour * 60 + q * t + k * t;
    assert(land == 60 * m60) by (nonlinear_arith)
        requires
            minute == t * q + u,
            land == hour * 3600 + minute * 60 + second + d,
            d + u * 60 + second == k * (t * 60),
            m60 == hour * 60 + q * t + k * t,
    ;
    lemma_mod_multiples_basic(m60, 60);
    assert(land % 60 == 0);
    lemma_div_multiples_vanish(m60, 60);
    assert(land / 60 == m60);
    let c = 60int / t;
    lemma_fundamental_div_mod(60, t);
    assert(60 == t * c);
    assert(m60 == (hour * c + q + k) * t) by (nonlinear_arith)
        requires
            m60 == hour * 60 + q * t + k * t,
            60 == t * c,
    ;
    lemma_mod_multiples_basic(hour * c + q + k, t);
    assert(m60 % t == 0);
    lemma_mod_mod(m60, t, c);
    assert((m60 % (t * c)) % t == m60 % t);
    assert((m60 % 60) % t == 0);
}

/// The scheduler's range guarantee: outside the five-second skip window at
/// the end of an interval, the delay is at least one second and at most one
/// full interval, and the wake-up instant it buys lands on a boundary.
///
/// Inside the skip window the delay deliberately exceeds one interval (it
/// skips the imminent boundary), so that window is excluded here.
pub proof fn lemma_delay_within_interval(hour: int, minute: int, second: int, timestep_mins: int)
    requires
        0 <= hour,
        0 <= minute < 60,
        0 <= second < 60,
        1 <= timestep_mins <= 60,
        60int % timestep_mins == 0,
        !(minute % timestep_mins == timestep_mins - 1 && second >= 55),
    ensures
        1 <= boundary_delay(minute, second, timestep_mins) <= timestep_mins * 60,
        landing_instant(hour, minute, second, timestep_mins) % 60 == 0,
        ((landing_instant(hour, minute, second, timestep_mins) / 60) % 60) % timestep_mins == 0,
{
    let t = timestep_mins;
    let u = minute % t;
    assert(0 <= u < t);
    assert(u * 60 <= (t - 1) * 60) by (nonlinear_arith)
        requires u <= t - 1;
    assert(0 <= u * 60) by (nonlinear_arith)
        requires 0 <= u;
    if u == t - 1 {
        assert(second <= 54);
    } else {
        assert(u * 60 <= (t - 2) * 60) by (nonlinear_arith)
            requires u <= t - 2;
    }
    lemma_delay_lands_on_boundary(hour, minute, second, timestep_mins);
}

} // verus!
