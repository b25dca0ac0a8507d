//! Saturating fixed-point arithmetic on `i64` values that count millionths of
//! a simulation unit, together with the integer square root and the sine and
//! cosine approximations the simulation runs on.
//!
//! Every executable operation mirrors a spec function over `int`, so callers
//! reason about exact mathematical values: division truncates toward zero
//! ([`dti`]) and every result is clamped into `[-LIMIT, LIMIT]` ([`clamped`]).

use vstd::prelude::*;

verus! {

/// Number of fixed-point subunits in one simulation unit.
pub const SCALE: i64 = 1_000_000;

/// Magnitude bound kept by every coordinate, velocity and force value.
pub const LIMIT: i64 = 1_000_000_000_000_000;

/// Fixed-point approximation of pi.
pub const PI_FX: i64 = 3_141_593;

/// Fixed-point approximation of pi / 2.
pub const HALF_PI_FX: i64 = 1_570_796;

/// One full turn: exactly `2 * PI_FX`, so angle folding stays consistent.
pub const TWO_PI_FX: i64 = 6_283_186;

/// Saturation of an unbounded integer into the representable range.
pub open spec fn clamped(v: int) -> int {
    if v > LIMIT {
        LIMIT as int
    } else if v < -LIMIT {
        -LIMIT as int
    } else {
        v
    }
}

/// Division truncated toward zero, total: zero divisor yields zero.
pub open spec fn dti(a: int, b: int) -> int {
    if b == 0 {
        0
    } else {
        let q = abs_i(a) / abs_i(b);
        if (a < 0) != (b < 0) {
            -q
        } else {
            q
        }
    }
}

/// Absolute value over `int`.
pub open spec fn abs_i(a: int) -> int {
    if a < 0 {
        -a
    } else {
        a
    }
}

/// Truncating division of `i128` values, the workhorse behind every
/// fixed-point operation.
pub(crate) fn dti_i128(a: i128, b: i128) -> (r: i128)
    requires
        a > i128::MIN,
        b > i128::MIN,
    ensures
        r == dti(a as int, b as int),
{
    if b == 0 {
        return 0;
    }
    let ua: u128 = if a < 0 {
        (-a) as u128
    } else {
        a as u128
    };
    let ub: u128 = if b < 0 {
        (-b) as u128
    } else {
        b as u128
    };
    let q: u128 = ua / ub;
    assert(q <= ua) by {
        assert(ua / ub <= ua) by (nonlinear_arith)
            requires
                ub >= 1,
        ;
    };
    if (a < 0) != (b < 0) {
        -(q as i128)
    } else {
        q as i128
    }
}

/// Saturation of an `i128` into the fixed-point range.
pub(crate) fn clamp128(v: i128) -> (r: i64)
    ensures
        r == clamped(v as int),
{
    if v > LIMIT as i128 {
        LIMIT
    } else if v < -(LIMIT as i128) {
        -LIMIT
    } else {
        v as i64
    }
}

/// Truncating division on `i64` values, without saturation: the quotient by
/// a nonzero divisor never grows in magnitude.
pub fn dti64(a: i64, b: i64) -> (r: i64)
    requires
        a > i64::MIN || b > 0,
    ensures
        r == dti(a as int, b as int),
{
    let q = dti_i128(a as i128, b as i128);
    proof {
        lemma_dti_bound(a as int, b as int);
        if a == i64::MIN {
            assert(q <= 0);
        }
    }
    q as i64
}

/// Truncating division is odd in its dividend, and saturation is odd on the
/// symmetric range.
pub proof fn lemma_dti_neg(a: int, b: int)
    ensures
        dti(-a, b) == -dti(a, b),
        clamped(-a) == -clamped(a),
{
    if b != 0 {
        assert(abs_i(-a) == abs_i(a));
        if a == 0 {
            assert(abs_i(a) / abs_i(b) == 0) by {
                vstd::arithmetic::div_mod::lemma_div_of0(abs_i(b));
            };
        }
    }
}

/// A truncating quotient never exceeds the dividend in magnitude.
pub proof fn lemma_dti_bound(a: int, b: int)
    ensures
        abs_i(dti(a, b)) <= abs_i(a),
{
    if b != 0 {
        vstd::arithmetic::div_mod::lemma_div_nonincreasing(abs_i(a), abs_i(b));
        vstd::arithmetic::div_mod::lemma_div_pos_is_pos(abs_i(a), abs_i(b));
    }
}

/// Saturating addition.
pub fn cadd(a: i64, b: i64) -> (r: i64)
    ensures
        r == clamped(a + b),
{
    clamp128(a as i128 + b as i128)
}

/// Saturating subtraction.
pub fn csub(a: i64, b: i64) -> (r: i64)
    ensures
        r == clamped(a - b),
{
    clamp128(a as i128 - b as i128)
}

/// Fixed-point product: `a * b / SCALE`, truncated and saturated.
pub open spec fn spec_fxmul(a: int, b: int) -> int {
    clamped(dti(a * b, SCALE as int))
}

/// Fixed-point quotient: `a * SCALE / b`, truncated and saturated.
pub open spec fn spec_fxdiv(a: int, b: int) -> int {
    clamped(dti(a * SCALE, b))
}

/// The product of two `i64` values fits well inside `i128`.
proof fn lemma_i64_product_bounds(a: int, b: int)
    requires
        i64::MIN <= a <= i64::MAX,
        i64::MIN <= b <= i64::MAX,
    ensures
        -0x4000_0000_0000_0000_0000_0000_0000_0000 <= a * b
            <= 0x4000_0000_0000_0000_0000_0000_0000_0000,
{
    assert(-0x4000_0000_0000_0000_0000_0000_0000_0000 <= a * b
        <= 0x4000_0000_0000_0000_0000_0000_0000_0000) by (nonlinear_arith)
        requires
            -0x8000_0000_0000_0000 <= a <= 0x7fff_ffff_ffff_ffff,
            -0x8000_0000_0000_0000 <= b <= 0x7fff_ffff_ffff_ffff,
    ;
}

pub fn fxmul(a: i64, b: i64) -> (r: i64)
    ensures
        r == spec_fxmul(a as int, b as int),
{
    proof {
        lemma_i64_product_bounds(a as int, b as int);
    }
    let p: i128 = a as i128 * b as i128;
    let q = dti_i128(p, SCALE as i128);
    clamp128(q)
}

pub fn fxdiv(a: i64, b: i64) -> (r: i64)
    ensures
        r == spec_fxdiv(a as int, b as int),
{
    proof {
        lemma_i64_product_bounds(a as int, SCALE as int);
    }
    let p: i128 = a as i128 * SCALE as i128;
    let q = dti_i128(p, b as i128);
    clamp128(q)
}

/// Product scaled by a divisor: `a * b / d`, truncated and saturated.
pub open spec fn spec_muldiv(a: int, b: int, d: int) -> int {
    clamped(dti(a * b, d))
}

pub fn cmuldiv(a: i64, b: i64, d: i64) -> (r: i64)
    ensures
        r == spec_muldiv(a as int, b as int, d as int),
{
    proof {
        lemma_i64_product_bounds(a as int, b as int);
    }
    let p: i128 = a as i128 * b as i128;
    let q = dti_i128(p, d as i128);
    clamp128(q)
}

/// `r` is the integer square root of `x`.
pub open spec fn is_sqrt(x: int, r: int) -> bool {
    0 <= r && r * r <= x && x < (r + 1) * (r + 1)
}

/// The integer square root as a value, well defined wherever one exists.
pub open spec fn sqrt_of(x: int) -> int {
    choose|r: int| is_sqrt(x, r)
}

/// The integer square root is unique, so a witness pins `sqrt_of` down.
pub proof fn lemma_sqrt_of(x: int, r: int)
    requires
        is_sqrt(x, r),
    ensures
        sqrt_of(x) == r,
{
    let s = sqrt_of(x);
    assert(is_sqrt(x, s));
    assert(s == r) by (nonlinear_arith)
        requires
            0 <= s,
            s * s <= x,
            x < (s + 1) * (s + 1),
            0 <= r,
            r * r <= x,
            x < (r + 1) * (r + 1),
    ;
}

/// Binary-search integer square root for inputs below `2^104`, which covers
/// any sum of two squared in-range differences.
pub fn isqrt(x: u128) -> (r: u64)
    requires
        x < 0x1_0000_0000_0000_0000_0000_0000_00,
    ensures
        is_sqrt(x as int, r as int),
        sqrt_of(x as int) == r as int,
{
    let mut lo: u128 = 0;
    let mut hi: u128 = 0x10_0000_0000_0000;
    assert(hi * hi == 0x1_0000_0000_0000_0000_0000_0000_00) by (nonlinear_arith)
        requires
            hi == 0x10_0000_0000_0000,
    ;
    while hi - lo > 1
        invariant
            lo < hi,
            hi <= 0x10_0000_0000_0000,
            lo * lo <= x,
            x < hi * hi,
        decreases hi - lo,
    {
        let mid = lo + (hi - lo) / 2;
        assert(lo < mid < hi);
        assert(mid * mid < 0x1_0000_0000_0000_0000_0000_0000_00) by (nonlinear_arith)
            requires
                mid < 0x10_0000_0000_0000,
        ;
        if mid * mid <= x {
            lo = mid;
        } else {
            hi = mid;
        }
    }
    assert(hi == lo + 1);
    proof {
        lemma_sqrt_of(x as int, lo as int);
    }
    lo as u64
}

/// Euclidean remainder of an angle by a full turn, landing in `[0, TWO_PI_FX)`.
pub open spec fn spec_norm_angle(a: int) -> int {
    a % (TWO_PI_FX as int)
}

fn norm_angle(a: i64) -> (r: i64)
    ensures
        r == spec_norm_angle(a as int),
        0 <= r < TWO_PI_FX,
{
    let m: u64 = TWO_PI_FX as u64;
    let ua: u64 = if a < 0 {
        (-(a as i128)) as u64
    } else {
        a as u64
    };
    let rem: u64 = ua % m;
    proof {
        vstd::arithmetic::div_mod::lemma_fundamental_div_mod(ua as int, m as int);
    }
    if a >= 0 {
        rem as i64
    } else if rem == 0 {
        proof {
            let q = ua as int / m as int;
            vstd::arithmetic::div_mod::lemma_fundamental_div_mod_converse_mod(
                a as int,
                m as int,
                -q,
                0,
            );
        }
        0
    } else {
        proof {
            let q = ua as int / m as int;
            assert(a as int == (-q - 1) * (m as int) + (m - rem)) by {
                assert(ua as int == q * (m as int) + rem);
                assert((-q - 1) * (m as int) == -(q * (m as int)) - m) by (nonlinear_arith);
            };
            vstd::arithmetic::div_mod::lemma_fundamental_div_mod_converse_mod(
                a as int,
                m as int,
                -q - 1,
                (m - rem) as int,
            );
        }
        (m - rem) as i64
    }
}

/// Rational sine approximation on `[0, PI_FX)`: `16 x (pi - x) * SCALE`
/// over `5 pi^2 - 4 x (pi - x)`.
pub open spec fn spec_half_wave(x: int) -> int {
    let p = x * (PI_FX - x);
    dti(16 * p * SCALE, 5 * PI_FX * PI_FX - 4 * p)
}

/// Sine of a fixed-point angle in scaled radians: the angle is folded into
/// one turn, the second half-turn is the negated first.
pub open spec fn spec_sin(a: int) -> int {
    let n = spec_norm_angle(a);
    if n < PI_FX {
        spec_half_wave(n)
    } else {
        -spec_half_wave(n - PI_FX)
    }
}

/// Cosine as the quarter-turn shift of the sine.
pub open spec fn spec_cos(a: int) -> int {
    spec_sin(a + HALF_PI_FX)
}

/// The half-wave value stays within one scaled unit.
proof fn lemma_half_wave_bounds(x: int)
    requires
        0 <= x < PI_FX,
    ensures
        0 <= spec_half_wave(x) <= SCALE,
{
    let p = x * (PI_FX - x);
    let num = 16 * p * SCALE;
    let den = 5 * PI_FX * PI_FX - 4 * p;
    assert(0 <= p && 4 * p <= PI_FX * PI_FX) by (nonlinear_arith)
        requires
            0 <= x < PI_FX,
            p == x * (PI_FX - x),
    ;
    assert(den >= 4 * PI_FX * PI_FX);
    assert(num >= 0);
    assert(dti(num, den) == num / den);
    assert(num / den >= 0) by (nonlinear_arith)
        requires
            num >= 0,
            den > 0,
    ;
    assert(num <= SCALE * den) by (nonlinear_arith)
        requires
            num == 16 * p * SCALE,
            den == 5 * PI_FX * PI_FX - 4 * p,
            4 * p <= PI_FX * PI_FX,
            p >= 0,
    ;
    assert(num / den <= SCALE) by (nonlinear_arith)
        requires
            num <= SCALE * den,
            den > 0,
            num >= 0,
    ;
}

/// The sine approximation stays within one scaled unit.
pub proof fn lemma_sin_bounds(a: int)
    ensures
        -SCALE <= spec_sin(a) <= SCALE,
{
    let n = spec_norm_angle(a);
    assert(0 <= n < TWO_PI_FX) by {
        vstd::arithmetic::div_mod::lemma_mod_division_less_than_divisor(a, TWO_PI_FX as int);
    };
    if n < PI_FX {
        lemma_half_wave_bounds(n);
    } else {
        lemma_half_wave_bounds(n - PI_FX);
    }
}

fn half_wave(x: i64) -> (r: i64)
    requires
        0 <= x < PI_FX,
    ensures
        r == spec_half_wave(x as int),
{
    assert(0 <= x * (PI_FX - x) <= PI_FX * PI_FX) by (nonlinear_arith)
        requires
            0 <= x < PI_FX,
    ;
    let p: i128 = x as i128 * (PI_FX - x) as i128;
    let num: i128 = 16 * p * SCALE as i128;
    let den: i128 = 5 * PI_FX as i128 * PI_FX as i128 - 4 * p;
    let q = dti_i128(num, den);
    proof {
        lemma_half_wave_bounds(x as int);
    }
    q as i64
}

/// Fixed-point sine; the result is exactly `spec_sin` and bounded by one unit.
pub fn sin_fx(a: i64) -> (r: i64)
    ensures
        r == spec_sin(a as int),
        -SCALE <= r <= SCALE,
{
    let n = norm_angle(a);
    proof {
        lemma_sin_bounds(a as int);
    }
    if n < PI_FX {
        half_wave(n)
    } else {
        -half_wave(n - PI_FX)
    }
}

/// The sine only depends on the angle modulo one turn.
proof fn lemma_sin_periodic(a: int, b: int)
    requires
        a % (TWO_PI_FX as int) == b % (TWO_PI_FX as int),
    ensures
        spec_sin(a) == spec_sin(b),
{
}

/// Fixed-point cosine; the result is exactly `spec_cos` and bounded by one unit.
pub fn cos_fx(a: i64) -> (r: i64)
    ensures
        r == spec_cos(a as int),
        -SCALE <= r <= SCALE,
{
    let n = norm_angle(a);
    let r = sin_fx(n + HALF_PI_FX);
    proof {
        vstd::arithmetic::div_mod::lemma_mod_twice(a as int, TWO_PI_FX as int);
        vstd::arithmetic::div_mod::lemma_add_mod_noop(a as int, HALF_PI_FX as int, TWO_PI_FX as int);
        vstd::arithmetic::div_mod::lemma_add_mod_noop(n as int, HALF_PI_FX as int, TWO_PI_FX as int);
        lemma_sin_periodic(n + HALF_PI_FX, a + HALF_PI_FX);
    }
    r
}

} // verus!
