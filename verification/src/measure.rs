//! Counts as a terminal reads them: quotients shown to one decimal.
//!
//! A quotient is that of two double-precision numbers, rounded to the nearest
//! double with ties to even, and its decimals are rounded the same way. Both
//! roundings are done here in integers.

use vstd::prelude::*;
use vstd::string::*;
use crate::text;
use crate::text::{cat, cat3, cat4, number};

verus! {

/// 2^52 and 2^53: the integers between them are the significands of doubles.
pub const LOW: u128 = 0x10_0000_0000_0000;

pub const HIGH: u128 = 0x20_0000_0000_0000;

/// The integer nearest to `n / d`, ties to the even one.
pub open spec fn half_even(n: int, d: int) -> int {
    let q = n / d;
    let r = n % d;
    if 2 * r < d || (2 * r == d && q % 2 == 0) {
        q
    } else {
        q + 1
    }
}

fn round_half_even(n: u128, d: u128) -> (r: u128)
    requires
        0 < d <= 0x4000_0000_0000_0000_0000_0000_0000_0000,
        n / d < u128::MAX,
    ensures
        r == half_even(n as int, d as int),
{
    let q: u128 = n / d;
    let r: u128 = n % d;
    if 2 * r < d || (2 * r == d && q % 2 == 0) {
        q
    } else {
        q + 1
    }
}

/// `p` doubled until `n` is below 2^53 of it.
pub open spec fn grain(n: int, p: int) -> int
    decreases n - p,
{
    if p >= 1 && n >= HIGH * p {
        grain(n, 2 * p)
    } else {
        p
    }
}

fn grain_of(n: u128, start: u128) -> (p: u128)
    requires
        n <= 0x1000_0000_0000_0000_0000_0000_0000_0000,
        1 <= start <= n || start == 1,
    ensures
        p == grain(n as int, start as int),
        p == start || n >= LOW * p,
        n < HIGH * p,
        p >= start,
{
    let mut p: u128 = start;
    while n / HIGH >= p
        invariant
            1 <= start <= p,
            p == start || n >= LOW * p,
            n <= 0x1000_0000_0000_0000_0000_0000_0000_0000,
            grain(n as int, start as int) == grain(n as int, p as int),
        decreases n - p,
    {
        assert(n >= HIGH * p);
        p = 2 * p;
    }
    p
}

/// The double nearest to an integer.
pub open spec fn double(n: int) -> int {
    half_even(n, grain(n, 1)) * grain(n, 1)
}

proof fn half_even_bound(n: int, d: int, m: int)
    requires
        d > 0,
        n >= 0,
        n < m * d,
    ensures
        0 <= half_even(n, d) <= m,
        half_even(n, d) * d <= n + d,
{
    vstd::arithmetic::div_mod::lemma_fundamental_div_mod(n, d);
    assert(n / d < m) by (nonlinear_arith)
        requires
            d > 0,
            n < m * d,
            n == d * (n / d) + n % d,
            0 <= n % d,
    ;
    assert(n / d >= 0) by (nonlinear_arith)
        requires
            d > 0,
            n >= 0,
    ;
    assert((n / d + 1) * d == d * (n / d) + d) by (nonlinear_arith);
    assert((n / d) * d == d * (n / d)) by (nonlinear_arith);
}

fn to_double(n: u64) -> (r: u128)
    ensures
        r == double(n as int),
        r <= 0x2_0000_0000_0000_0000,
        n > 0 ==> r > 0,
{
    let n: u128 = n as u128;
    let g: u128 = grain_of(n, 1);
    proof {
        half_even_bound(n as int, g as int, HIGH as int);
    }
    assert(n / g <= n) by (nonlinear_arith)
        requires
            g >= 1,
    ;
    let q: u128 = round_half_even(n, g);
    assert(q * g <= n + g);
    proof {
        if n > 0 {
            if g > 1 {
                vstd::arithmetic::div_mod::lemma_fundamental_div_mod(n as int, g as int);
                assert(n as int / g as int >= 1) by (nonlinear_arith)
                    requires
                        n >= g,
                        g >= 1,
                ;
            } else {
                assert(n as int / 1 == n);
            }
            assert(q * g > 0) by (nonlinear_arith)
                requires
                    q > 0,
                    g > 0,
            ;
        }
    }
    q * g
}

/// `n` and `p` doubled together until `n` reaches 2^52 of `d`.
pub open spec fn raised(n: int, d: int, p: int) -> (int, int)
    decreases
        (if n < LOW * d {
            LOW * d - n
        } else {
            0
        }),
{
    if 0 < n && n < LOW * d {
        raised(2 * n, d, 2 * p)
    } else {
        (n, p)
    }
}

/// `d` and `k` doubled together until `n` is below 2^53 of `d`.
pub open spec fn lowered(n: int, d: int, k: int) -> (int, int)
    decreases n - d,
{
    if d > 0 && n >= HIGH * d {
        lowered(n, 2 * d, 2 * k)
    } else {
        (d, k)
    }
}

/// The double nearest to the quotient of the doubles nearest to `n` and `d`:
/// its significand `q`, and powers of two `p` and `k` that make it
/// `q * k / p`.
pub open spec fn quotient(n: int, d: int) -> (int, int, int) {
    let (top, p) = raised(double(n), double(d), 1);
    let (bottom, k) = lowered(double(n), double(d), 1);
    (half_even(top, bottom), p, k)
}

fn quotient_of(n: u64, d: u64) -> (r: (u128, u128, u128))
    requires
        n > 0,
        d > 0,
    ensures
        (r.0 as int, r.1 as int, r.2 as int) == quotient(n as int, d as int),
        r.0 <= HIGH,
        1 <= r.1 <= 0x80_0000_0000_0000_0000_0000_0000_0000,
        1 <= r.2 <= 0x10000,
{
    let dn: u128 = to_double(n);
    let dd: u128 = to_double(d);
    let mut top: u128 = dn;
    let mut p: u128 = 1;
    while top < LOW * dd
        invariant
            0 < top,
            0 < dd <= 0x2_0000_0000_0000_0000,
            0 < dn <= 0x2_0000_0000_0000_0000,
            1 <= p <= top,
            top == dn || top < HIGH * dd,
            raised(dn as int, dd as int, 1) == raised(top as int, dd as int, p as int),
        decreases
            (if top < LOW * dd {
                LOW * dd - top
            } else {
                0
            }),
    {
        top = 2 * top;
        p = 2 * p;
    }
    let mut bottom: u128 = dd;
    let mut k: u128 = 1;
    while dn / HIGH >= bottom
        invariant
            0 < dd <= bottom,
            0 < dn <= 0x2_0000_0000_0000_0000,
            1 <= k <= bottom,
            k == 1 || dn >= LOW * bottom,
            bottom == dd || dn >= LOW * bottom,
            lowered(dn as int, dd as int, 1) == lowered(dn as int, bottom as int, k as int),
        decreases dn - bottom,
    {
        bottom = 2 * bottom;
        k = 2 * k;
    }
    assert(top < HIGH * bottom);
    proof {
        half_even_bound(top as int, bottom as int, HIGH as int);
        assert(top as int / bottom as int <= top) by (nonlinear_arith)
            requires
                bottom >= 1,
                top >= 0,
        ;
    }
    (round_half_even(top, bottom), p, k)
}

/// The tenths shown for `n / d`.
pub open spec fn tenths(n: int, d: int) -> int {
    let (q, p, k) = quotient(n, d);
    if n == 0 {
        0
    } else {
        half_even(10 * q * k, p)
    }
}

fn tenths_of(n: u64, d: u64) -> (r: u128)
    requires
        d > 0,
    ensures
        r == tenths(n as int, d as int),
{
    if n == 0 {
        return 0;
    }
    let (q, p, k) = quotient_of(n, d);
    assert(10 * q * k <= 10 * 0x20_0000_0000_0000 * 0x10000) by (nonlinear_arith)
        requires
            q <= 0x20_0000_0000_0000,
            k <= 0x10000,
    ;
    let m: u128 = 10 * q * k;
    assert(m as int / p as int <= m) by (nonlinear_arith)
        requires
            p >= 1,
            m >= 0,
    ;
    round_half_even(m, p)
}

/// A number of tenths with its decimal point.
pub open spec fn one_decimal(t: int) -> Seq<char> {
    text::decimal((t / 10) as nat) + "."@ + text::decimal((t % 10) as nat)
}

/// A number in decimal.
pub fn wide_number(n: u128) -> (r: String)
    ensures
        r@ == text::decimal(n as nat),
    decreases n,
{
    if n < 10 {
        number(n as u64)
    } else {
        let mut s = wide_number(n / 10);
        let d = number((n % 10) as u64);
        s.append(d.as_str());
        assert(s@ == text::decimal(n as nat));
        s
    }
}

/// `n / d` to one decimal.
pub fn decimal_of(n: u64, d: u64) -> (r: String)
    requires
        d > 0,
    ensures
        r@ == one_decimal(tenths(n as int, d as int)),
{
    let t: u128 = tenths_of(n, d);
    let whole = wide_number(t / 10);
    let rest = wide_number(t % 10);
    cat3(whole.as_str(), ".", rest.as_str())
}

/// The share of `part` in `whole` in percent, each step a double, rounded to
/// the nearest integer with halves up.
pub open spec fn share(part: int, whole: int) -> int {
    let (q, p, k) = quotient(part, whole);
    if part == 0 || whole == 0 {
        0
    } else {
        let v = double(100 * q) * k;
        (2 * v + p) / (2 * p)
    }
}

pub fn percent(part: u64, whole: u64) -> (r: u128)
    ensures
        r == share(part as int, whole as int),
{
    if part == 0 || whole == 0 {
        return 0;
    }
    let (q, p, k) = quotient_of(part, whole);
    let m: u64 = (100 * q) as u64;
    let v: u128 = to_double(m);
    assert(v * k <= 0x2_0000_0000_0000_0000 * 0x10000) by (nonlinear_arith)
        requires
            v <= 0x2_0000_0000_0000_0000,
            k <= 0x10000,
    ;
    let v: u128 = v * k;
    (2 * v + p) / (2 * p)
}

/// A token count, compact: thousands and millions to one decimal.
pub open spec fn token_count(value: int) -> Seq<char> {
    if value < 1000 {
        text::decimal(value as nat)
    } else if value < 1_000_000 {
        one_decimal(tenths(value, 1000)) + "K"@
    } else {
        one_decimal(tenths(value, 1_000_000)) + "M"@
    }
}

pub fn fmt_tokens(value: u64) -> (r: String)
    ensures
        r@ == token_count(value as int),
{
    if value < 1000 {
        number(value)
    } else if value < 1_000_000 {
        let s = decimal_of(value, 1000);
        cat(s.as_str(), "K")
    } else {
        let s = decimal_of(value, 1_000_000);
        cat(s.as_str(), "M")
    }
}

/// A duration, compact: seconds to one decimal below a minute, then minutes
/// and seconds.
pub open spec fn duration(ms: int) -> Seq<char> {
    if ms < 60_000 {
        one_decimal(tenths(ms, 1000)) + "s"@
    } else {
        text::decimal((ms / 60_000) as nat) + "m"@ + text::decimal(
            (ms % 60_000 / 1000) as nat,
        ) + "s"@
    }
}

pub fn fmt_duration(ms: u64) -> (r: String)
    ensures
        r@ == duration(ms as int),
{
    if ms < 60_000 {
        let s = decimal_of(ms, 1000);
        cat(s.as_str(), "s")
    } else {
        let m = number(ms / 60_000);
        let s = number(ms % 60_000 / 1000);
        cat4(m.as_str(), "m", s.as_str(), "s")
    }
}

} // verus!
