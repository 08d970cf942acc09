//! Conversion of raw trade times into elapsed micro-seconds since midnight.
//!
//! A raw trade time is written `HHmmssffffff`: two digits of hours, two of
//! minutes, then seconds and micro-seconds as eight digits. The conversion
//! follows the tick loader's column arithmetic, which divides and takes
//! remainders by flooring (the remainder of a positive divisor is never
//! negative).
use vstd::arithmetic::div_mod::{
    lemma_fundamental_div_mod, lemma_fundamental_div_mod_converse, lemma_mod_pos_bound,
};
use vstd::prelude::*;

verus! {

/// Micro-seconds in one hour.
pub const MICROS_PER_HOUR: i64 = 3_600_000_000;

/// Micro-seconds in one minute.
pub const MICROS_PER_MINUTE: i64 = 60_000_000;

/// Scale of the hour digits in a raw trade time.
pub const HOUR_SCALE: i64 = 10_000_000_000;

/// Scale of the minute digits in a raw trade time.
pub const MINUTE_SCALE: i64 = 100_000_000;

/// The hour digits of `t`, read as hours, in micro-seconds.
pub open spec fn spec_hours_to_micros(t: int) -> int {
    ((t / 10_000_000_000) % 100) * 3_600_000_000
}

/// The minute digits of `t`, read as minutes, in micro-seconds.
pub open spec fn spec_mins_to_micros(t: int) -> int {
    ((t / 100_000_000) % 100) * 60_000_000
}

/// Elapsed micro-seconds denoted by the raw trade time `t`.
pub open spec fn spec_elapsed_micros(t: int) -> int {
    spec_hours_to_micros(t) + spec_mins_to_micros(t) + t % 100_000_000
}

/// For `x == -(n + 1)` and `n == a * d + b`, floor division of `x` by `d`
/// gives `-a - 1` with remainder `d - 1 - b`.
proof fn lemma_negative_div_mod(x: int, d: int, n: int, a: int, b: int)
    requires
        d > 0,
        n >= 0,
        x == -(n + 1),
        a == n / d,
        b == n % d,
    ensures
        x / d == -a - 1,
        x % d == d - 1 - b,
{
    lemma_fundamental_div_mod(n, d);
    lemma_mod_pos_bound(n, d);
    assert(x == (-a - 1) * d + (d - 1 - b)) by (nonlinear_arith)
        requires
            n == d * a + b,
            x == -(n + 1),
    ;
    lemma_fundamental_div_mod_converse(x, d, -a - 1, d - 1 - b);
}

/// Floor division by a positive divisor.
fn floor_div(x: i64, d: i64) -> (q: i64)
    requires
        d > 0,
    ensures
        q == x as int / d as int,
{
    if x >= 0 {
        x / d
    } else {
        // x == -(n + 1) with n >= 0, so x == (-(n / d) - 1) * d + (d - 1 - n % d).
        let n = -(x + 1);
        let a = n / d;
        let b = n % d;
        proof {
            lemma_negative_div_mod(x as int, d as int, n as int, a as int, b as int);
        }
        -a - 1
    }
}

/// Floor remainder by a positive divisor; it lies in `0..d`.
fn floor_mod(x: i64, d: i64) -> (r: i64)
    requires
        d > 0,
    ensures
        r == x as int % d as int,
        0 <= r < d,
{
    if x >= 0 {
        x % d
    } else {
        let n = -(x + 1);
        let a = n / d;
        let b = n % d;
        proof {
            lemma_negative_div_mod(x as int, d as int, n as int, a as int, b as int);
        }
        d - 1 - b
    }
}

/// The hour digits of a raw trade time, converted to micro-seconds.
pub fn hours_to_micros(t: i64) -> (r: i64)
    ensures
        r == spec_hours_to_micros(t as int),
        0 <= r < 100 * MICROS_PER_HOUR,
{
    let h = floor_mod(floor_div(t, HOUR_SCALE), 100);
    h * MICROS_PER_HOUR
}

/// The minute digits of a raw trade time, converted to micro-seconds.
pub fn mins_to_micros(t: i64) -> (r: i64)
    ensures
        r == spec_mins_to_micros(t as int),
        0 <= r < 100 * MICROS_PER_MINUTE,
{
    let m = floor_mod(floor_div(t, MINUTE_SCALE), 100);
    m * MICROS_PER_MINUTE
}

/// Converts a raw trade time `HHmmssffffff` into the micro-seconds elapsed
/// since midnight: hours and minutes are scaled, and the last eight digits
/// (seconds and micro-seconds) are kept as they are.
pub fn convert_trade_time_to_elapsed_micros(t: i64) -> (r: i64)
    ensures
        r == spec_elapsed_micros(t as int),
        r >= 0,
{
    hours_to_micros(t) + mins_to_micros(t) + floor_mod(t, MINUTE_SCALE)
}

/// A raw trade time made of `hh` hours, `mm` minutes and `rest` seconds and
/// micro-seconds (eight digits) denotes `hh` hours plus `mm` minutes plus
/// `rest` micro-seconds.
pub proof fn lemma_elapsed_of_fields(hh: int, mm: int, rest: int)
    requires
        0 <= hh < 100,
        0 <= mm < 100,
        0 <= rest < 100_000_000,
    ensures
        spec_elapsed_micros(hh * 10_000_000_000 + mm * 100_000_000 + rest)
            == hh * 3_600_000_000 + mm * 60_000_000 + rest,
{
    let t = hh * 10_000_000_000 + mm * 100_000_000 + rest;
    let low = mm * 100_000_000 + rest;
    assert(0 <= low < 10_000_000_000) by (nonlinear_arith)
        requires
            0 <= mm < 100,
            0 <= rest < 100_000_000,
            low == mm * 100_000_000 + rest,
    ;
    lemma_fundamental_div_mod_converse(t, 10_000_000_000, hh, low);
    lemma_fundamental_div_mod_converse(hh, 100, 0, hh);
    lemma_fundamental_div_mod_converse(t, 100_000_000, hh * 100 + mm, rest);
    lemma_fundamental_div_mod_converse(hh * 100 + mm, 100, hh, mm);
}

/// Every raw time, negative ones included, is `q` whole units of 100 hours
/// plus `hh` hours, `mm` minutes and `rest` micro-seconds (floor digits);
/// it denotes `hh` hours plus `mm` minutes plus `rest` micro-seconds, the
/// digits above the hours being dropped.
pub proof fn lemma_elapsed_of_any_time(q: int, hh: int, mm: int, rest: int)
    requires
        0 <= hh < 100,
        0 <= mm < 100,
        0 <= rest < 100_000_000,
    ensures
        spec_elapsed_micros(
            q * 1_000_000_000_000 + hh * 10_000_000_000 + mm * 100_000_000 + rest,
        ) == hh * 3_600_000_000 + mm * 60_000_000 + rest,
{
    let t = q * 1_000_000_000_000 + hh * 10_000_000_000 + mm * 100_000_000 + rest;
    let low = mm * 100_000_000 + rest;
    assert(0 <= low < 10_000_000_000) by (nonlinear_arith)
        requires
            0 <= mm < 100,
            0 <= rest < 100_000_000,
            low == mm * 100_000_000 + rest,
    ;
    assert(t == (q * 100 + hh) * 10_000_000_000 + low) by (nonlinear_arith)
        requires
            t == q * 1_000_000_000_000 + hh * 10_000_000_000 + mm * 100_000_000 + rest,
            low == mm * 100_000_000 + rest,
    ;
    lemma_fundamental_div_mod_converse(t, 10_000_000_000, q * 100 + hh, low);
    lemma_fundamental_div_mod_converse(q * 100 + hh, 100, q, hh);
    assert(t == (q * 10_000 + hh * 100 + mm) * 100_000_000 + rest) by (nonlinear_arith)
        requires
            t == q * 1_000_000_000_000 + hh * 10_000_000_000 + mm * 100_000_000 + rest,
    ;
    lemma_fundamental_div_mod_converse(t, 100_000_000, q * 10_000 + hh * 100 + mm, rest);
    assert(q * 10_000 + hh * 100 + mm == (q * 100 + hh) * 100 + mm) by (nonlinear_arith);
    lemma_fundamental_div_mod_converse(q * 10_000 + hh * 100 + mm, 100, q * 100 + hh, mm);
}

/// On well-formed clock times (minutes below 60, seconds below 60) the
/// conversion keeps the order of the raw trade times.
pub proof fn lemma_elapsed_monotone(
    hh1: int,
    mm1: int,
    rest1: int,
    hh2: int,
    mm2: int,
    rest2: int,
)
    requires
        0 <= hh1 < 100,
        0 <= mm1 < 60,
        0 <= rest1 < 60_000_000,
        0 <= hh2 < 100,
        0 <= mm2 < 60,
        0 <= rest2 < 60_000_000,
        hh1 * 10_000_000_000 + mm1 * 100_000_000 + rest1 <= hh2 * 10_000_000_000 + mm2
            * 100_000_000 + rest2,
    ensures
        spec_elapsed_micros(hh1 * 10_000_000_000 + mm1 * 100_000_000 + rest1)
            <= spec_elapsed_micros(hh2 * 10_000_000_000 + mm2 * 100_000_000 + rest2),
{
    lemma_elapsed_of_fields(hh1, mm1, rest1);
    lemma_elapsed_of_fields(hh2, mm2, rest2);
    assert(hh1 * 3_600_000_000 + mm1 * 60_000_000 + rest1 <= hh2 * 3_600_000_000 + mm2
        * 60_000_000 + rest2) by (nonlinear_arith)
        requires
            0 <= mm1 < 60,
            0 <= rest1 < 60_000_000,
            0 <= mm2 < 60,
            0 <= rest2 < 60_000_000,
            hh1 * 10_000_000_000 + mm1 * 100_000_000 + rest1 <= hh2 * 10_000_000_000 + mm2
                * 100_000_000 + rest2,
    ;
}

} // verus!
