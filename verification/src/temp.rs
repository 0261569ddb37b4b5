//! Fixed-point temperature arithmetic.
//!
//! Temperatures travel through the library in millidegrees (thousandths of
//! a degree), so every conversion is exact integer arithmetic with a single,
//! explicitly stated rounding step: division rounds to the nearest multiple,
//! halves toward positive infinity.

use vstd::prelude::*;
use vstd::arithmetic::div_mod::{
    lemma_fundamental_div_mod, lemma_fundamental_div_mod_converse, lemma_mod_bound,
};

verus! {

/// `n / d` rounded to the nearest integer, halves toward positive infinity.
pub open spec fn round_div_spec(n: int, d: int) -> int
    recommends
        0 < d,
{
    (2 * n + d) / (2 * d)
}

/// Celsius millidegrees for the given Fahrenheit millidegrees:
/// `(f - 32) * 5 / 9` carried out in thousandths, rounded once.
pub open spec fn fahrenheit_to_celsius_spec(f: int) -> int {
    round_div_spec((f - 32000) * 5, 9)
}

/// Fahrenheit millidegrees for the given Celsius millidegrees:
/// `c * 9 / 5 + 32` carried out in thousandths, rounded once.
pub open spec fn celsius_to_fahrenheit_spec(c: int) -> int {
    round_div_spec(c * 9, 5) + 32000
}

/// The rounded quotient differs from the exact ratio by at most half
/// the divisor: `-d <= 2 * (n - d * q) < d`.
pub proof fn lemma_round_div_close(n: int, d: int)
    requires
        0 < d,
    ensures
        -d <= 2 * (n - d * round_div_spec(n, d)),
        2 * (n - d * round_div_spec(n, d)) < d,
{
    let q = round_div_spec(n, d);
    let r = (2 * n + d) % (2 * d);
    lemma_fundamental_div_mod(2 * n + d, 2 * d);
    lemma_mod_bound(2 * n + d, 2 * d);
    assert(2 * (n - d * q) == r - d) by (nonlinear_arith)
        requires
            2 * n + d == 2 * d * q + r,
    ;
}

/// Converting Fahrenheit to Celsius and back returns within one
/// millidegree of the starting point, for every input.
pub proof fn lemma_temperature_round_trip(f: int)
    ensures
        celsius_to_fahrenheit_spec(fahrenheit_to_celsius_spec(f)) - f <= 1,
        f - celsius_to_fahrenheit_spec(fahrenheit_to_celsius_spec(f)) <= 1,
{
    let c = fahrenheit_to_celsius_spec(f);
    lemma_round_div_close((f - 32000) * 5, 9);
    lemma_round_div_close(c * 9, 5);
}

/// Floor division by a positive divisor (quotient of euclidean division).
fn floor_div(n: i64, d: i64) -> (q: i64)
    requires
        0 < d < 0x4000_0000_0000_0000,
        -0x4000_0000_0000_0000 < n < 0x4000_0000_0000_0000,
    ensures
        q == n as int / d as int,
{
    if n >= 0 {
        let q0: u64 = (n as u64) / (d as u64);
        proof {
            lemma_fundamental_div_mod(n as int, d as int);
            lemma_mod_bound(n as int, d as int);
            assert(n as int / d as int <= n as int) by (nonlinear_arith)
                requires
                    0 < d as int,
                    0 <= n as int,
            ;
        }
        q0 as i64
    } else {
        let m: u64 = (-n) as u64;
        let du: u64 = d as u64;
        let q1: u64 = (m + du - 1) / du;
        proof {
            let mi = m as int;
            let di = d as int;
            let q1i = (mi + di - 1) / di;
            let r1 = (mi + di - 1) % di;
            lemma_fundamental_div_mod(mi + di - 1, di);
            lemma_mod_bound(mi + di - 1, di);
            // q1i is the ceiling of m / d, so d*q1i - d + 1 <= m <= d*q1i,
            // which places -m in the euclidean window for quotient -q1i.
            let r2 = di * q1i - mi;
            assert(r2 == di - 1 - r1) by (nonlinear_arith)
                requires
                    mi + di - 1 == di * q1i + r1,
                    r2 == di * q1i - mi,
            ;
            assert(-mi == (-q1i) * di + r2) by (nonlinear_arith)
                requires
                    r2 == di * q1i - mi,
            ;
            lemma_fundamental_div_mod_converse(-mi, di, -q1i, r2);
            assert(0 <= q1i <= mi) by (nonlinear_arith)
                requires
                    di * q1i == mi + di - 1 - r1,
                    0 <= r1 < di,
                    1 <= mi,
                    1 <= di,
            ;
        }
        -(q1 as i64)
    }
}

/// `n / d` rounded to the nearest integer, halves toward positive infinity.
fn round_div(n: i64, d: i64) -> (q: i64)
    requires
        0 < d < 0x1000_0000,
        -0x1000_0000_0000_0000 < n < 0x1000_0000_0000_0000,
    ensures
        q == round_div_spec(n as int, d as int),
{
    floor_div(2 * n + d, 2 * d)
}

/// Fahrenheit millidegrees to Celsius millidegrees.
pub fn fahrenheit_to_celsius(f_milli: i64) -> (c: i64)
    requires
        -1_000_000_000 <= f_milli <= 1_000_000_000,
    ensures
        c == fahrenheit_to_celsius_spec(f_milli as int),
        -600_000_000 <= c <= 600_000_000,
{
    let n: i64 = (f_milli - 32000) * 5;
    let c = round_div(n, 9);
    proof {
        lemma_round_div_close(n as int, 9);
    }
    c
}

/// Celsius millidegrees to Fahrenheit millidegrees.
pub fn celsius_to_fahrenheit(c_milli: i64) -> (f: i64)
    requires
        -1_000_000_000 <= c_milli <= 1_000_000_000,
    ensures
        f == celsius_to_fahrenheit_spec(c_milli as int),
        -2_000_000_000 <= f <= 2_000_000_000,
{
    let n: i64 = c_milli * 9;
    let q = round_div(n, 5);
    proof {
        lemma_round_div_close(n as int, 5);
    }
    q + 32000
}

/// Millidegrees reduced to tenths of a degree, rounded to nearest.
pub fn milli_to_deci(milli: i64) -> (d: i64)
    requires
        -2_000_000_000 <= milli <= 2_000_000_000,
    ensures
        d == round_div_spec(milli as int, 100),
{
    round_div(milli, 100)
}

/// Millidegrees (or milli-percent) reduced to whole units, rounded to nearest.
pub fn milli_to_whole(milli: i64) -> (w: i64)
    requires
        -2_000_000_000 <= milli <= 2_000_000_000,
    ensures
        w == round_div_spec(milli as int, 1000),
{
    round_div(milli, 1000)
}

} // verus!
