//! Signed 16.16 fixed-point scalars.
//!
//! A scalar is an `i64` whose value is the integer divided by `FX_ONE`
//! (65536). Every operation clips its mathematical result into
//! `[-FX_MAX, FX_MAX]` instead of overflowing, so all operations are total;
//! division by zero saturates to the signed bound, standing in for the
//! infinities an IEEE implementation would produce.

use vstd::prelude::*;

verus! {

/// The fixed-point representation of 1.
pub const FX_ONE: i64 = 65536;

/// Saturation bound of every fixed-point operation (2^60).
pub const FX_MAX: i64 = 1152921504606846976;

/// The negated saturation bound.
pub const FX_MIN: i64 = -1152921504606846976;

/// The fixed-point representation of pi, rounded down.
pub const FX_PI: i64 = 205887;

/// The fixed-point representation of 1/2.
pub const FX_HALF: i64 = 32768;

/// The fixed-point representation of 2.
pub const FX_TWO: i64 = 131072;

/// The fixed-point representation of 4.
pub const FX_FOUR: i64 = 262144;

/// Clip an unbounded result into the representable range.
pub open spec fn clip(v: int) -> int {
    if v > FX_MAX as int {
        FX_MAX as int
    } else if v < -(FX_MAX as int) {
        -(FX_MAX as int)
    } else {
        v
    }
}

/// Truncating (round-toward-zero) integer division, as Rust's `/` computes it;
/// division by zero is defined as zero here and is never relied on.
pub open spec fn stdiv(a: int, b: int) -> int {
    if b == 0 {
        0
    } else {
        let q = abs_int(a) / abs_int(b);
        if (a >= 0) == (b >= 0) {
            q
        } else {
            -q
        }
    }
}

pub open spec fn abs_int(a: int) -> int {
    if a >= 0 {
        a
    } else {
        -a
    }
}

/// The value of fixed-point addition.
pub open spec fn sadd(a: int, b: int) -> int {
    clip(a + b)
}

/// The value of fixed-point subtraction.
pub open spec fn ssub(a: int, b: int) -> int {
    clip(a - b)
}

/// The value of fixed-point negation.
pub open spec fn sneg(a: int) -> int {
    clip(-a)
}

/// The value of fixed-point multiplication: the product rescaled by `FX_ONE`,
/// truncated toward zero.
pub open spec fn smul(a: int, b: int) -> int {
    clip(stdiv(a * b, FX_ONE as int))
}

/// The value of fixed-point division: the quotient prescaled by `FX_ONE`,
/// truncated toward zero; a zero divisor saturates with the sign of the
/// dividend.
pub open spec fn sdiv(a: int, b: int) -> int {
    if b == 0 {
        if a >= 0 {
            FX_MAX as int
        } else {
            -(FX_MAX as int)
        }
    } else {
        clip(stdiv(a * FX_ONE, b))
    }
}

pub open spec fn smin(a: int, b: int) -> int {
    if a <= b {
        a
    } else {
        b
    }
}

pub open spec fn smax(a: int, b: int) -> int {
    if a >= b {
        a
    } else {
        b
    }
}

pub open spec fn sclamp(x: int, lo: int, hi: int) -> int {
    if x < lo {
        lo
    } else if x > hi {
        hi
    } else {
        x
    }
}

/// `r` is the integer square root (rounded down) of `n`.
pub open spec fn is_isqrt(n: int, r: int) -> bool {
    0 <= r && r * r <= n && n < (r + 1) * (r + 1)
}

/// The integer square root, rounded down, of a nonnegative integer.
pub open spec fn isqrt_s(n: int) -> int {
    choose|r: int| is_isqrt(n, r)
}

/// The value of fixed-point square root: negative inputs map to zero.
pub open spec fn ssqrt(x: int) -> int {
    if x <= 0 {
        0
    } else {
        isqrt_s(x * FX_ONE)
    }
}

/// The fifth power of a fixed-point scalar, computed as ((w*w)*(w*w))*w.
pub open spec fn spow5(w: int) -> int {
    let w2 = smul(w, w);
    smul(smul(w2, w2), w)
}

/// `i64`-valued forms of the operation specs; every result of `clip` fits in
/// an `i64`, so these casts never truncate.
pub open spec fn sadd64(a: i64, b: i64) -> i64 {
    sadd(a as int, b as int) as i64
}

pub open spec fn ssub64(a: i64, b: i64) -> i64 {
    ssub(a as int, b as int) as i64
}

pub open spec fn sneg64(a: i64) -> i64 {
    sneg(a as int) as i64
}

pub open spec fn sabs64(a: i64) -> i64 {
    clip(abs_int(a as int)) as i64
}

pub open spec fn smul64(a: i64, b: i64) -> i64 {
    smul(a as int, b as int) as i64
}

pub open spec fn sdiv64(a: i64, b: i64) -> i64 {
    sdiv(a as int, b as int) as i64
}

pub open spec fn smin64(a: i64, b: i64) -> i64 {
    smin(a as int, b as int) as i64
}

pub open spec fn smax64(a: i64, b: i64) -> i64 {
    smax(a as int, b as int) as i64
}

pub open spec fn sclamp64(x: i64, lo: i64, hi: i64) -> i64 {
    sclamp(x as int, lo as int, hi as int) as i64
}

pub open spec fn ssqrt64(x: i64) -> i64 {
    ssqrt(x as int) as i64
}

pub open spec fn spow564(w: i64) -> i64 {
    spow5(w as int) as i64
}

proof fn lemma_square_monotonic(a: int, b: int)
    requires
        0 <= a < b,
    ensures
        a * a < b * b,
{
    assert(a * a < b * b) by (nonlinear_arith)
        requires
            0 <= a < b,
    ;
}

pub proof fn lemma_isqrt_unique(n: int, r1: int, r2: int)
    requires
        is_isqrt(n, r1),
        is_isqrt(n, r2),
    ensures
        r1 == r2,
{
    if r1 < r2 {
        lemma_square_monotonic(r1 + 1, r2 + 1);
        assert((r1 + 1) * (r1 + 1) <= r2 * r2) by (nonlinear_arith)
            requires
                0 <= r1 + 1 <= r2,
        ;
    }
    if r2 < r1 {
        assert((r2 + 1) * (r2 + 1) <= r1 * r1) by (nonlinear_arith)
            requires
                0 <= r2 + 1 <= r1,
        ;
    }
}

pub proof fn lemma_clip_monotone(a: int, b: int)
    requires
        a <= b,
    ensures
        clip(a) <= clip(b),
{
}

/// Truncating division by a positive divisor is monotone in the numerator.
pub proof fn lemma_stdiv_monotone(a1: int, a2: int, b: int)
    requires
        a1 <= a2,
        b > 0,
    ensures
        stdiv(a1, b) <= stdiv(a2, b),
{
    if 0 <= a1 {
        vstd::arithmetic::div_mod::lemma_div_is_ordered(a1, a2, b);
    } else if a2 < 0 {
        vstd::arithmetic::div_mod::lemma_div_is_ordered(-a2, -a1, b);
    } else {
        vstd::arithmetic::div_mod::lemma_div_is_ordered(0, -a1, b);
        vstd::arithmetic::div_mod::lemma_div_is_ordered(0, a2, b);
    }
}

/// Truncating division flips sign with the divisor.
pub proof fn lemma_stdiv_neg_divisor(a: int, b: int)
    ensures
        stdiv(a, -b) == -stdiv(a, b),
{
}

/// Fixed-point division is monotone in the dividend for a nonnegative
/// divisor and antitone for a negative one (a zero divisor saturates by the
/// dividend's sign, which is monotone too).
pub proof fn lemma_sdiv64_monotone(a1: i64, a2: i64, b: i64)
    requires
        a1 <= a2,
    ensures
        b >= 0 ==> sdiv64(a1, b) <= sdiv64(a2, b),
        b < 0 ==> sdiv64(a1, b) >= sdiv64(a2, b),
{
    if b == 0 {
    } else if b > 0 {
        vstd::arithmetic::mul::lemma_mul_inequality(a1 as int, a2 as int, FX_ONE as int);
        lemma_stdiv_monotone(a1 * FX_ONE, a2 * FX_ONE, b as int);
        lemma_clip_monotone(stdiv(a1 * FX_ONE, b as int), stdiv(a2 * FX_ONE, b as int));
    } else {
        vstd::arithmetic::mul::lemma_mul_inequality(a1 as int, a2 as int, FX_ONE as int);
        lemma_stdiv_neg_divisor(a1 * FX_ONE, -(b as int));
        lemma_stdiv_neg_divisor(a2 * FX_ONE, -(b as int));
        lemma_stdiv_monotone(a1 * FX_ONE, a2 * FX_ONE, -(b as int));
        lemma_clip_monotone(stdiv(a2 * FX_ONE, b as int), stdiv(a1 * FX_ONE, b as int));
    }
}

fn clip128(v: i128) -> (r: i64)
    ensures
        r as int == clip(v as int),
{
    if v > FX_MAX as i128 {
        FX_MAX
    } else if v < -(FX_MAX as i128) {
        -FX_MAX
    } else {
        v as i64
    }
}

/// The magnitude of an `i64`, as a `u64`.
fn abs_u(a: i64) -> (r: u64)
    ensures
        r as int == abs_int(a as int),
{
    if a >= 0 {
        a as u64
    } else {
        (-(a as i128)) as u64
    }
}

/// Clip a magnitude with an explicit sign into the representable range.
fn signed_clip(q: u128, neg: bool) -> (r: i64)
    ensures
        r as int == clip(if neg { -(q as int) } else { q as int }),
{
    if neg {
        if q > FX_MAX as u128 {
            -FX_MAX
        } else {
            -((q as i128) as i64)
        }
    } else {
        if q > FX_MAX as u128 {
            FX_MAX
        } else {
            q as i64
        }
    }
}

/// Saturating fixed-point addition.
pub fn fadd(a: i64, b: i64) -> (r: i64)
    ensures
        r as int == sadd(a as int, b as int),
        r == sadd64(a, b),
{
    clip128(a as i128 + b as i128)
}

/// Saturating fixed-point subtraction.
pub fn fsub(a: i64, b: i64) -> (r: i64)
    ensures
        r as int == ssub(a as int, b as int),
        r == ssub64(a, b),
{
    clip128(a as i128 - b as i128)
}

/// Saturating fixed-point negation.
pub fn fneg(a: i64) -> (r: i64)
    ensures
        r as int == sneg(a as int),
        r == sneg64(a),
{
    clip128(-(a as i128))
}

/// Fixed-point absolute value (saturating at the representation bound).
pub fn fabs(a: i64) -> (r: i64)
    ensures
        r as int == clip(abs_int(a as int)),
        r == sabs64(a),
        r >= 0,
{
    if a >= 0 {
        clip128(a as i128)
    } else {
        clip128(-(a as i128))
    }
}

/// Saturating fixed-point multiplication.
pub fn fmul(a: i64, b: i64) -> (r: i64)
    ensures
        r as int == smul(a as int, b as int),
        r == smul64(a, b),
{
    let aa = abs_u(a);
    let bb = abs_u(b);
    proof {
        assert((aa as int) * (bb as int) < 340282366920938463463374607431768211456int)
            by (nonlinear_arith)
            requires
                0 <= (aa as int),
                (aa as int) < 18446744073709551616int,
                0 <= (bb as int),
                (bb as int) < 18446744073709551616int,
        ;
    }
    let p: u128 = (aa as u128) * (bb as u128);
    let q: u128 = p / (FX_ONE as u128);
    let neg = (a < 0) != (b < 0);
    proof {
        assert(abs_int((a as int) * (b as int)) == abs_int(a as int) * abs_int(b as int))
            by (nonlinear_arith);
        assert(((a as int) * (b as int) >= 0) == ((a as int >= 0) == (b as int >= 0))
            || (a as int) * (b as int) == 0) by (nonlinear_arith);
    }
    signed_clip(q, neg)
}

/// Saturating fixed-point division; a zero divisor saturates with the sign of
/// the dividend, standing in for IEEE infinities.
pub fn fdiv(a: i64, b: i64) -> (r: i64)
    ensures
        r as int == sdiv(a as int, b as int),
        r == sdiv64(a, b),
{
    if b == 0 {
        if a >= 0 {
            FX_MAX
        } else {
            -FX_MAX
        }
    } else {
        let aa = abs_u(a);
        let bb = abs_u(b);
        let p: u128 = (aa as u128) * (FX_ONE as u128);
        let q: u128 = p / (bb as u128);
        let neg = (a < 0) != (b < 0);
        proof {
            assert(abs_int((a as int) * (FX_ONE as int)) == abs_int(a as int) * (FX_ONE as int))
                by (nonlinear_arith);
            assert(((a as int) * (FX_ONE as int) >= 0) == (a as int >= 0)
                || (a as int) * (FX_ONE as int) == 0) by (nonlinear_arith);
        }
        signed_clip(q, neg)
    }
}

pub fn fmin(a: i64, b: i64) -> (r: i64)
    ensures
        r as int == smin(a as int, b as int),
        r == smin64(a, b),
{
    if a <= b {
        a
    } else {
        b
    }
}

pub fn fmax(a: i64, b: i64) -> (r: i64)
    ensures
        r as int == smax(a as int, b as int),
        r == smax64(a, b),
{
    if a >= b {
        a
    } else {
        b
    }
}

pub fn fclamp(x: i64, lo: i64, hi: i64) -> (r: i64)
    ensures
        r as int == sclamp(x as int, lo as int, hi as int),
        r == sclamp64(x, lo, hi),
{
    if x < lo {
        lo
    } else if x > hi {
        hi
    } else {
        x
    }
}

/// Integer square root, rounded down, by binary search.
fn isqrt_u(n: u128) -> (r: u64)
    requires
        (n as int) < 1208925819614629174706176,  // 2^80
    ensures
        is_isqrt(n as int, r as int),
{
    let mut lo: u64 = 0;
    let mut hi: u64 = 1099511627776;  // 2^40
    proof {
        assert((1099511627776 as int) * (1099511627776 as int) > n as int);
    }
    while hi - lo > 1
        invariant
            lo < hi,
            hi <= 1099511627776,
            (lo as int) * (lo as int) <= n as int,
            (hi as int) * (hi as int) > n as int,
        decreases hi - lo,
    {
        let mid: u64 = lo + (hi - lo) / 2;
        proof {
            assert((mid as int) * (mid as int) <= 1208925819614629174706176int)
                by (nonlinear_arith)
                requires
                    0 <= (mid as int),
                    (mid as int) <= 1099511627776int,
            ;
        }
        if (mid as u128) * (mid as u128) <= n {
            lo = mid;
        } else {
            hi = mid;
        }
    }
    lo
}

/// Fixed-point square root: `fsqrt(x)` is the integer square root of
/// `x * FX_ONE`, so scaling is preserved; negative inputs map to zero.
pub fn fsqrt(x: i64) -> (r: i64)
    ensures
        r as int == ssqrt(x as int),
        r == ssqrt64(x),
        0 <= r <= FX_MAX,
{
    if x <= 0 {
        0
    } else {
        proof {
            assert((x as int) * (FX_ONE as int) < 1208925819614629174706176int)
                by (nonlinear_arith)
                requires
                    0 <= (x as int),
                    (x as int) < 9223372036854775808int,
            ;
        }
        let n: u128 = (x as u128) * (FX_ONE as u128);
        let r: u64 = isqrt_u(n);
        proof {
            assert(is_isqrt(n as int, isqrt_s(n as int)));
            lemma_isqrt_unique(n as int, r as int, isqrt_s(n as int));
            assert((1099511627776 as int) * (1099511627776 as int) > n as int);
            if r as int >= 1099511627776 {
                assert((r as int) * (r as int) >= (1099511627776 as int) * (1099511627776 as int))
                    by (nonlinear_arith)
                    requires
                        r as int >= 1099511627776,
                ;
            }
        }
        r as i64
    }
}

/// Normalize a scalar in `(0, 1)` into `[1, 2)` by doubling, together with
/// the (negative) exponent consumed; the fuel bounds the doubling count.
pub open spec fn snorm_up(x: i64, fuel: nat) -> (i64, int)
    decreases fuel,
{
    if fuel == 0 || x <= 0 || x >= FX_ONE {
        (x, 0)
    } else {
        let (m, e) = snorm_up((2 * x) as i64, (fuel - 1) as nat);
        (m, e - 1)
    }
}

/// Normalize a scalar at least 2 into `[1, 2)` by halving, together with the
/// exponent consumed; the fuel bounds the halving count.
pub open spec fn snorm_down(x: i64, fuel: nat) -> (i64, int)
    decreases fuel,
{
    if fuel == 0 || x < FX_TWO {
        (x, 0)
    } else {
        let (m, e) = snorm_down((x / 2) as i64, (fuel - 1) as nat);
        (m, e + 1)
    }
}

/// Mantissa in `[1, 2)` and exponent of a positive scalar; 17 doublings and
/// 64 halvings cover the whole `i64` range.
pub open spec fn snorm(x: i64) -> (i64, int) {
    if x < FX_ONE {
        snorm_up(x, 17)
    } else {
        snorm_down(x, 64)
    }
}

/// The fractional bits of the base-2 logarithm of a mantissa in `[1, 2)`,
/// extracted by repeated squaring; `w` is the weight of the next bit.
pub open spec fn slog2_frac(m: i64, w: i64, iters: nat) -> i64
    decreases iters,
{
    if iters == 0 {
        0
    } else {
        let m2 = smul64(m, m);
        if m2 >= FX_TWO {
            sadd64(w, slog2_frac((m2 / 2) as i64, (w / 2) as i64, (iters - 1) as nat))
        } else {
            slog2_frac(m2, (w / 2) as i64, (iters - 1) as nat)
        }
    }
}

/// Fixed-point base-2 logarithm to 16 fractional bits; nonpositive inputs
/// saturate to the negative bound, standing in for minus infinity.
pub open spec fn slog2(x: i64) -> i64 {
    if x <= 0 {
        FX_MIN
    } else {
        let (m, e) = snorm(x);
        sadd64(clip(e * (FX_ONE as int)) as i64, slog2_frac(m, FX_HALF, 16))
    }
}

fn norm_up(x: i64, fuel: u32) -> (r: (i64, i64))
    requires
        0 < x < FX_ONE,
        fuel <= 17,
    ensures
        r.0 == snorm_up(x, fuel as nat).0,
        r.1 as int == snorm_up(x, fuel as nat).1,
        -(fuel as int) <= r.1 <= 0,
    decreases fuel,
{
    if fuel == 0 {
        (x, 0)
    } else {
        let d = 2 * x;
        if d >= FX_ONE {
            proof {
                reveal_with_fuel(snorm_up, 2);
            }
            (d, -1)
        } else {
            let (m, e) = norm_up(d, fuel - 1);
            (m, e - 1)
        }
    }
}

fn norm_down(x: i64, fuel: u32) -> (r: (i64, i64))
    requires
        x >= FX_ONE,
        fuel <= 64,
    ensures
        r.0 == snorm_down(x, fuel as nat).0,
        r.1 as int == snorm_down(x, fuel as nat).1,
        0 <= r.1 <= fuel as int,
    decreases fuel,
{
    if fuel == 0 || x < FX_TWO {
        (x, 0)
    } else {
        let (m, e) = norm_down(x / 2, fuel - 1);
        (m, e + 1)
    }
}

fn log2_frac(m: i64, w: i64, iters: u32) -> (r: i64)
    requires
        w >= 0,
    ensures
        r == slog2_frac(m, w, iters as nat),
    decreases iters,
{
    if iters == 0 {
        0
    } else {
        let m2 = fmul(m, m);
        if m2 >= FX_TWO {
            fadd(w, log2_frac(m2 / 2, w / 2, iters - 1))
        } else {
            log2_frac(m2, w / 2, iters - 1)
        }
    }
}

/// Fixed-point base-2 logarithm (16 fractional bits of precision).
pub fn flog2(x: i64) -> (r: i64)
    ensures
        r == slog2(x),
{
    if x <= 0 {
        FX_MIN
    } else if x < FX_ONE {
        let (m, e) = norm_up(x, 17);
        let whole = clip128((e as i128) * (FX_ONE as i128));
        fadd(whole, log2_frac(m, FX_HALF, 16))
    } else {
        let (m, e) = norm_down(x, 64);
        let whole = clip128((e as i128) * (FX_ONE as i128));
        fadd(whole, log2_frac(m, FX_HALF, 16))
    }
}

/// `b` raised to the fractional exponent `t` in `[0, 1]`, by binary exponent
/// expansion over iterated square roots.
pub open spec fn spow_frac(b: i64, t: i64, iters: nat) -> i64
    decreases iters,
{
    if iters == 0 {
        FX_ONE
    } else {
        let r = ssqrt64(b);
        if t >= FX_HALF {
            smul64(r, spow_frac(r, ssub64((2 * t) as i64, FX_ONE), (iters - 1) as nat))
        } else {
            spow_frac(r, sclamp64((2 * t) as i64, 0, FX_ONE), (iters - 1) as nat)
        }
    }
}

/// `b^t` for a fixed-point base and exponent `t` clamped to `[0, 1]`, to 16
/// binary digits of the exponent.
pub fn fpow_frac(b: i64, t: i64) -> (r: i64)
    ensures
        r == spow_frac(b, sclamp64(t, 0, FX_ONE), 16),
{
    let tc = fclamp(t, 0, FX_ONE);
    pow_frac_rec(b, tc, 16)
}

fn pow_frac_rec(b: i64, t: i64, iters: u32) -> (r: i64)
    requires
        0 <= t <= FX_ONE,
    ensures
        r == spow_frac(b, t, iters as nat),
    decreases iters,
{
    if iters == 0 {
        FX_ONE
    } else {
        let r = fsqrt(b);
        if t >= FX_HALF {
            fmul(r, pow_frac_rec(r, fsub(2 * t, FX_ONE), iters - 1))
        } else {
            pow_frac_rec(r, fclamp(2 * t, 0, FX_ONE), iters - 1)
        }
    }
}

/// The sign of a scalar as a fixed-point unit, with zero counted positive
/// (as the IEEE sign of +0 is).
pub open spec fn ssignum(x: i64) -> i64 {
    if x >= 0 {
        FX_ONE
    } else {
        (-65536) as i64
    }
}

pub fn fsignum(x: i64) -> (r: i64)
    ensures
        r == ssignum(x),
{
    if x >= 0 {
        FX_ONE
    } else {
        -FX_ONE
    }
}

/// The fixed-point representation of 2*pi, rounded down.
pub const FX_TWO_PI: i64 = 411774;

/// The fixed-point representation of pi/2, rounded up so that two halves
/// reassemble pi.
pub const FX_HALF_PI: i64 = 102944;

/// Bhaskara's rational approximation of the sine on `[0, pi]`:
/// `16x(pi - x) / (5 pi^2 - 4x(pi - x))`.
pub open spec fn ssin_half(x: i64) -> i64 {
    let k = smul64(x, ssub64(FX_PI, x));
    sdiv64(smul64(1048576, k), ssub64(smul64(327680, smul64(FX_PI, FX_PI)), smul64(262144, k)))
}

/// Sine of any angle: reduce into `[0, 2 pi)`, then apply the half-period
/// approximation with the right sign.
pub open spec fn ssin(x: i64) -> i64 {
    let n = (x as int) / (FX_TWO_PI as int);
    let m = clip(x - n * FX_TWO_PI) as i64;
    if m < FX_PI {
        ssin_half(m)
    } else {
        sneg64(ssin_half(ssub64(m, FX_PI)))
    }
}

/// Cosine as the sine shifted a quarter period.
pub open spec fn scos(x: i64) -> i64 {
    ssin(sadd64(x, FX_HALF_PI))
}

fn sin_half(x: i64) -> (r: i64)
    ensures
        r == ssin_half(x),
{
    let k = fmul(x, fsub(FX_PI, x));
    fdiv(fmul(1048576, k), fsub(fmul(327680, fmul(FX_PI, FX_PI)), fmul(262144, k)))
}

/// Fixed-point sine (Bhaskara's approximation, about three decimal digits).
pub fn fsin(x: i64) -> (r: i64)
    ensures
        r == ssin(x),
{
    let n = ffloor_div_wide(x, FX_TWO_PI);
    proof {
        assert((n as int) * (FX_TWO_PI as int) < 170141183460469231731687303715884105728int
            && (n as int) * (FX_TWO_PI as int) > -170141183460469231731687303715884105728int)
            by (nonlinear_arith)
            requires
                -9223372036854775808int <= (n as int) <= 9223372036854775807int,
        ;
    }
    let m = clip128((x as i128) - (n as i128) * (FX_TWO_PI as i128));
    if m < FX_PI {
        sin_half(m)
    } else {
        fneg(sin_half(fsub(m, FX_PI)))
    }
}

/// Fixed-point cosine.
pub fn fcos(x: i64) -> (r: i64)
    ensures
        r == scos(x),
{
    fsin(fadd(x, FX_HALF_PI))
}

/// Quadratic approximation of the arctangent on `[0, 1]`:
/// `x (pi/4 + 0.273 (1 - x))`.
pub open spec fn satan_unit(x: i64) -> i64 {
    smul64(x, sadd64(51472, smul64(17892, ssub64(FX_ONE, x))))
}

fn atan_unit(x: i64) -> (r: i64)
    ensures
        r == satan_unit(x),
{
    fmul(x, fadd(51472, fmul(17892, fsub(FX_ONE, x))))
}

/// Four-quadrant arctangent in `(-pi, pi]`, by octant reduction onto the
/// unit approximation; both arguments zero yield zero.
pub open spec fn satan2(y: i64, x: i64) -> i64 {
    let ax = sabs64(x);
    let ay = sabs64(y);
    if ax == 0 && ay == 0 {
        0
    } else {
        satan2_inner(y, x, ax, ay)
    }
}

pub open spec fn satan2_inner(y: i64, x: i64, ax: i64, ay: i64) -> i64 {
    let base = if ay <= ax {
        satan_unit(sdiv64(ay, ax))
    } else {
        ssub64(FX_HALF_PI, satan_unit(sdiv64(ax, ay)))
    };
    let quad = if x >= 0 {
        base
    } else {
        ssub64(FX_PI, base)
    };
    if y < 0 {
        sneg64(quad)
    } else {
        quad
    }
}

pub fn fatan2(y: i64, x: i64) -> (r: i64)
    ensures
        r == satan2(y, x),
{
    let ax = fabs(x);
    let ay = fabs(y);
    if ax == 0 && ay == 0 {
        return 0;
    }
    let base = if ay <= ax {
        atan_unit(fdiv(ay, ax))
    } else {
        fsub(FX_HALF_PI, atan_unit(fdiv(ax, ay)))
    };
    let quad = if x >= 0 {
        base
    } else {
        fsub(FX_PI, base)
    };
    if y < 0 {
        fneg(quad)
    } else {
        quad
    }
}

/// Arccosine in `[0, pi]`, from the arctangent of the complementary leg.
pub open spec fn sacos(c: i64) -> i64 {
    satan2(ssqrt64(ssub64(FX_ONE, smul64(c, c))), c)
}

pub fn facos(c: i64) -> (r: i64)
    ensures
        r == sacos(c),
{
    fatan2(fsqrt(fsub(FX_ONE, fmul(c, c))), c)
}

/// Floor division usable on the whole `i64` range (the quotient is computed
/// in wide arithmetic).
fn ffloor_div_wide(a: i64, b: i64) -> (q: i64)
    requires
        b > 1,
    ensures
        q as int == (a as int) / (b as int),
{
    let qt = a / b;
    let rm = a % b;
    if rm != 0 && a < 0 {
        proof {
            let n: int = -(a as int);
            let bb: int = b as int;
            vstd::arithmetic::div_mod::lemma_fundamental_div_mod(n, bb);
            assert(a as int == (-(n / bb) - 1) * bb + (bb - n % bb)) by (nonlinear_arith)
                requires
                    a as int == -n,
                    n == bb * (n / bb) + n % bb,
            ;
            vstd::arithmetic::div_mod::lemma_fundamental_div_mod_converse(
                a as int,
                bb,
                -(n / bb) - 1,
                bb - n % bb,
            );
            vstd::arithmetic::div_mod::lemma_div_is_ordered_by_denominator(n, 2, bb);
            vstd::arithmetic::div_mod::lemma_div_is_ordered(n, 9223372036854775808int, 2);
        }
        qt - 1
    } else {
        proof {
            let n: int = -(a as int);
            let bb: int = b as int;
            if a < 0 {
                vstd::arithmetic::div_mod::lemma_fundamental_div_mod(n, bb);
                assert(a as int == (-(n / bb)) * bb + 0) by (nonlinear_arith)
                    requires
                        a as int == -n,
                        n == bb * (n / bb) + n % bb,
                        n % bb == 0,
                ;
                vstd::arithmetic::div_mod::lemma_fundamental_div_mod_converse(
                    a as int,
                    bb,
                    -(n / bb),
                    0,
                );
            }
        }
        qt
    }
}

/// Floor division by a positive divisor (Euclidean quotient), used where a
/// fixed-point value is turned into a lattice cell index.
pub fn ffloor_div(a: i64, b: i64) -> (r: i64)
    requires
        b > 0,
        -(FX_MAX as int) <= a as int <= FX_MAX as int,
    ensures
        r as int == (a as int) / (b as int),
{
    let q = a / b;
    let rm = a % b;
    if rm != 0 && a < 0 {
        proof {
            let n: int = -(a as int);
            let bb: int = b as int;
            vstd::arithmetic::div_mod::lemma_fundamental_div_mod(n, bb);
            assert(n == bb * (n / bb) + n % bb);
            assert(0 < n % bb < bb);
            assert(bb * (-(n / bb) - 1) == -(bb * (n / bb)) - bb) by (nonlinear_arith);
            assert(a as int == (-(n / bb) - 1) * bb + (bb - n % bb)) by (nonlinear_arith)
                requires
                    a as int == -n,
                    n == bb * (n / bb) + n % bb,
            ;
            vstd::arithmetic::div_mod::lemma_fundamental_div_mod_converse(
                a as int,
                bb,
                -(n / bb) - 1,
                bb - n % bb,
            );
        }
        q - 1
    } else {
        proof {
            let n: int = -(a as int);
            let bb: int = b as int;
            if a < 0 {
                vstd::arithmetic::div_mod::lemma_fundamental_div_mod(n, bb);
                assert(n % bb == 0);
                assert(a as int == (-(n / bb)) * bb + 0) by (nonlinear_arith)
                    requires
                        a as int == -n,
                        n == bb * (n / bb) + n % bb,
                        n % bb == 0,
                ;
                vstd::arithmetic::div_mod::lemma_fundamental_div_mod_converse(
                    a as int,
                    bb,
                    -(n / bb),
                    0,
                );
            }
        }
        q
    }
}

/// The fifth power of a fixed-point scalar, used by the Schlick terms.
pub fn fpow5(w: i64) -> (r: i64)
    ensures
        r as int == spow5(w as int),
        r == spow564(w),
{
    let w2 = fmul(w, w);
    fmul(fmul(w2, w2), w)
}

} // verus!
