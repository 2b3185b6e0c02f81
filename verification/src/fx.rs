//! Fixed-point scalar arithmetic.
//!
//! Every geometric quantity in this crate is an `i64` holding a count of
//! 1/65536 units.  All operations saturate at `FX_SAT`, so a value produced
//! by this module always lies in `[-FX_SAT, FX_SAT]` and no intermediate
//! computation can overflow.  Division by zero yields zero: the pipeline
//! treats a degenerate divisor (a zero perspective `w`, a zero-area triangle,
//! a zero-length normal) as a defined fallback, never a fault.
use vstd::prelude::*;

verus! {

/// One whole unit.
pub const FX_ONE: i64 = 65536;

/// Saturation bound: magnitudes are capped here, so every fixed-point value
/// fits comfortably in an `i64` with room for sums of a few terms.
pub const FX_SAT: i64 = 0x7fff_ffff_ffff;

/// A value this module is willing to operate on.
pub open spec fn fx_ok(a: int) -> bool {
    -(FX_SAT as int) <= a <= FX_SAT as int
}

/// Magnitude of a value.
pub open spec fn fx_abs_spec(a: int) -> int {
    if a < 0 { -a } else { a }
}

/// Cap a non-negative magnitude at the saturation bound.
pub open spec fn sat_mag(m: int) -> int {
    if m > FX_SAT as int { FX_SAT as int } else { m }
}

/// Clamp a value into `[-FX_SAT, FX_SAT]`.
pub open spec fn fx_sat_spec(v: int) -> int {
    if v > FX_SAT as int {
        FX_SAT as int
    } else if v < -(FX_SAT as int) {
        -(FX_SAT as int)
    } else {
        v
    }
}

/// Saturating product of two fixed-point values: `a * b / 65536`, truncated
/// toward zero, with the magnitude capped.
pub open spec fn fx_mul_spec(a: int, b: int) -> int {
    let p = a * b;
    let m = sat_mag(fx_abs_spec(p) / (FX_ONE as int));
    if p < 0 { -m } else { m }
}

/// Saturating quotient of two fixed-point values: `a * 65536 / b`, truncated
/// toward zero, with the magnitude capped.  A zero divisor yields zero.
pub open spec fn fx_div_spec(a: int, b: int) -> int {
    if b == 0 {
        0
    } else {
        let m = sat_mag((fx_abs_spec(a) * (FX_ONE as int)) / fx_abs_spec(b));
        if (a < 0) != (b < 0) { -m } else { m }
    }
}

/// Saturating sum.
pub open spec fn fx_add_spec(a: int, b: int) -> int {
    fx_sat_spec(a + b)
}

/// Saturating difference.
pub open spec fn fx_sub_spec(a: int, b: int) -> int {
    fx_sat_spec(a - b)
}

/// Clamp into `[0, FX_ONE]`, the unit interval.
pub open spec fn fx_clamp01_spec(a: int) -> int {
    if a < 0 {
        0
    } else if a > FX_ONE as int {
        FX_ONE as int
    } else {
        a
    }
}

/// Absolute value, returned as an unsigned magnitude so that `i64::MIN` needs
/// no special case.
pub fn fx_abs_mag(a: i64) -> (r: u64)
    ensures
        r == fx_abs_spec(a as int),
{
    if a < 0 {
        (-(a as i128)) as u64
    } else {
        a as u64
    }
}

/// Saturating absolute value.
pub fn fx_abs(a: i64) -> (r: i64)
    requires
        fx_ok(a as int),
    ensures
        r == fx_abs_spec(a as int),
        fx_ok(r as int),
{
    if a < 0 { -a } else { a }
}

pub fn fx_mul(a: i64, b: i64) -> (r: i64)
    requires
        fx_ok(a as int),
        fx_ok(b as int),
    ensures
        r == fx_mul_spec(a as int, b as int),
        fx_ok(r as int),
{
    let neg = (a < 0) != (b < 0);
    let ma = fx_abs_mag(a);
    let mb = fx_abs_mag(b);
    proof {
        let ai: int = a as int;
        let bi: int = b as int;
        assert(((ai * bi < 0) <==> ((ai < 0) != (bi < 0)) && ai != 0 && bi != 0) && ((if ai * bi
            < 0 {
            -(ai * bi)
        } else {
            ai * bi
        }) == (if ai < 0 {
            -ai
        } else {
            ai
        }) * (if bi < 0 {
            -bi
        } else {
            bi
        })) && (if ai < 0 {
            -ai
        } else {
            ai
        }) * (if bi < 0 {
            -bi
        } else {
            bi
        }) >= 0) by (nonlinear_arith);
        assert((ma as int) * (mb as int) <= (FX_SAT as int) * (FX_SAT as int))
            by (nonlinear_arith)
            requires
                0 <= ma as int <= FX_SAT as int,
                0 <= mb as int <= FX_SAT as int,
        ;
    }
    let p: u128 = (ma as u128) * (mb as u128);
    let m: u128 = p / 65536;
    let m64: u64 = if m > FX_SAT as u128 {
        FX_SAT as u64
    } else {
        m as u64
    };
    proof {
        let ai: int = a as int;
        let bi: int = b as int;
        assert((ai == 0 || bi == 0) ==> ai * bi == 0) by (nonlinear_arith);
        assert(p as int == fx_abs_spec(ai * bi));
        assert(m as int == fx_abs_spec(ai * bi) / (FX_ONE as int));
        assert(m64 as int == sat_mag(fx_abs_spec(ai * bi) / (FX_ONE as int)));
    }
    if neg {
        -(m64 as i64)
    } else {
        m64 as i64
    }
}

pub fn fx_div(a: i64, b: i64) -> (r: i64)
    requires
        fx_ok(a as int),
        fx_ok(b as int),
    ensures
        r == fx_div_spec(a as int, b as int),
        fx_ok(r as int),
{
    if b == 0 {
        return 0;
    }
    let neg = (a < 0) != (b < 0);
    let ma: u128 = (fx_abs_mag(a) as u128) * 65536;
    let mb: u128 = fx_abs_mag(b) as u128;
    let q: u128 = ma / mb;
    let q64: u64 = if q > FX_SAT as u128 {
        FX_SAT as u64
    } else {
        q as u64
    };
    if neg {
        -(q64 as i64)
    } else {
        q64 as i64
    }
}

pub fn fx_add(a: i64, b: i64) -> (r: i64)
    requires
        fx_ok(a as int),
        fx_ok(b as int),
    ensures
        r == fx_add_spec(a as int, b as int),
        fx_ok(r as int),
{
    let s: i64 = a + b;
    if s > FX_SAT {
        FX_SAT
    } else if s < -FX_SAT {
        -FX_SAT
    } else {
        s
    }
}

pub fn fx_sub(a: i64, b: i64) -> (r: i64)
    requires
        fx_ok(a as int),
        fx_ok(b as int),
    ensures
        r == fx_sub_spec(a as int, b as int),
        fx_ok(r as int),
{
    let s: i64 = a - b;
    if s > FX_SAT {
        FX_SAT
    } else if s < -FX_SAT {
        -FX_SAT
    } else {
        s
    }
}

pub fn fx_clamp01(a: i64) -> (r: i64)
    ensures
        r == fx_clamp01_spec(a as int),
        fx_ok(r as int),
        0 <= r <= FX_ONE,
{
    if a < 0 {
        0
    } else if a > FX_ONE {
        FX_ONE
    } else {
        a
    }
}

/// Multiplying by zero yields exactly zero.
pub proof fn lemma_fx_mul_zero(a: int)
    ensures
        fx_mul_spec(a, 0) == 0,
        fx_mul_spec(0, a) == 0,
{
    assert(a * 0 == 0 && 0 * a == 0) by (nonlinear_arith);
}

/// Multiplying an in-range value by plus or minus one is exact.
pub proof fn lemma_fx_mul_one(a: int)
    requires
        fx_ok(a),
    ensures
        fx_mul_spec(a, FX_ONE as int) == a,
        fx_mul_spec(FX_ONE as int, a) == a,
        fx_mul_spec(a, -(FX_ONE as int)) == -a,
        fx_mul_spec(-(FX_ONE as int), a) == -a,
{
    let one = FX_ONE as int;
    let m = fx_abs_spec(a);
    assert((if a * one < 0 {
        -(a * one)
    } else {
        a * one
    }) == m * one && ((a * one < 0) <==> a < 0) && (if a * (-one) < 0 {
        -(a * (-one))
    } else {
        a * (-one)
    }) == m * one && ((a * (-one) < 0) <==> a > 0) && m * one == one * m && a * one == one * a
        && a * (-one) == (-one) * a) by (nonlinear_arith)
        requires
            one == FX_ONE as int,
            m == (if a < 0 {
                -a
            } else {
                a
            }),
    ;
    vstd::arithmetic::div_mod::lemma_div_multiples_vanish_fancy(m, 0, one);
    assert(one * m + 0 == one * m);
    assert((m * one) / one == m);
    assert(fx_abs_spec(a * one) == m * one);
    assert(fx_abs_spec(a * (-one)) == m * one);
}

/// Dividing zero by anything yields zero.
pub proof fn lemma_fx_div_zero(b: int)
    ensures
        fx_div_spec(0, b) == 0,
{
    if b != 0 {
        vstd::arithmetic::div_mod::lemma_div_of0(fx_abs_spec(b));
    }
}

/// Half a turn, in fixed point: the closest representable value below pi.
pub const PI_FX: i64 = 205887;

/// A full turn: `2 * PI_FX`.
pub const TWO_PI_FX: i64 = 411774;

/// A quarter turn: `PI_FX / 2`, rounded down.
pub const HALF_PI_FX: i64 = 102943;

/// `5 * pi^2` in fixed point: `5 * (PI_FX * PI_FX / FX_ONE)`, the squared
/// angle rounded down before the factor of five.  The denominator constant
/// of the rational sine approximation below.
pub const FIVE_PI_SQ_FX: i64 = 3234055;

/// Sixteen, in fixed point.
pub const SIXTEEN_FX: i64 = 16 * FX_ONE;

/// Four, in fixed point.
pub const FOUR_FX: i64 = 4 * FX_ONE;

/// Wrap a value into `[0, TWO_PI_FX)`, treating negative input by mirroring
/// its remainder.
pub open spec fn fx_wrap_angle_spec(a: int) -> int {
    if a >= 0 {
        a % (TWO_PI_FX as int)
    } else {
        let rm = (-a) % (TWO_PI_FX as int);
        if rm == 0 { 0 } else { TWO_PI_FX - rm }
    }
}

/// Rational approximation of the sine of `x` for `x` in `[0, PI_FX)`:
/// `16 x (pi - x) / (5 pi^2 - 4 x (pi - x))`, evaluated in fixed point.
pub open spec fn half_wave_spec(x: int) -> int {
    let t = fx_mul_spec(x, PI_FX - x);
    fx_div_spec(fx_mul_spec(t, SIXTEEN_FX as int), fx_sub_spec(FIVE_PI_SQ_FX as int, fx_mul_spec(t, FOUR_FX as int)))
}

/// The crate's periodic function: the half-wave approximation on the first
/// half turn, mirrored and negated on the second.  The quarter turns are
/// pinned to their exact values — the approximation stops one unit short of
/// the peak — so that the wave is exactly 0, 1, 0, -1 at the four axis
/// points and rotation matrices at those angles are exact.
pub open spec fn fx_sin_spec(a: int) -> int {
    let m = fx_wrap_angle_spec(a);
    if m == HALF_PI_FX {
        FX_ONE as int
    } else if m == PI_FX + HALF_PI_FX {
        -(FX_ONE as int)
    } else if m < PI_FX {
        half_wave_spec(m)
    } else {
        -half_wave_spec(m - PI_FX)
    }
}

/// The same wave a quarter turn ahead.
pub open spec fn fx_cos_spec(a: int) -> int {
    fx_sin_spec(fx_add_spec(a, HALF_PI_FX as int))
}

/// The wave is exact on the axes: 0 at zero and half a turn, plus and
/// minus one at the quarter turns, and so one for the cosine at zero.
pub proof fn lemma_fx_sin_axis()
    ensures
        fx_sin_spec(0) == 0,
        fx_sin_spec(HALF_PI_FX as int) == FX_ONE,
        fx_sin_spec(PI_FX as int) == 0,
        fx_sin_spec(PI_FX + HALF_PI_FX) == -(FX_ONE as int),
        fx_cos_spec(0) == FX_ONE,
{
    vstd::arithmetic::div_mod::lemma_small_mod(0, TWO_PI_FX as nat);
    vstd::arithmetic::div_mod::lemma_small_mod(HALF_PI_FX as nat, TWO_PI_FX as nat);
    vstd::arithmetic::div_mod::lemma_small_mod(PI_FX as nat, TWO_PI_FX as nat);
    vstd::arithmetic::div_mod::lemma_small_mod((PI_FX + HALF_PI_FX) as nat, TWO_PI_FX as nat);
    assert(fx_wrap_angle_spec(0) == 0);
    assert(fx_wrap_angle_spec(HALF_PI_FX as int) == HALF_PI_FX);
    assert(fx_wrap_angle_spec(PI_FX as int) == PI_FX);
    assert(fx_wrap_angle_spec(PI_FX + HALF_PI_FX) == PI_FX + HALF_PI_FX);
    lemma_fx_mul_zero(PI_FX as int);
    lemma_fx_mul_zero(SIXTEEN_FX as int);
    lemma_fx_mul_zero(FOUR_FX as int);
    assert(half_wave_spec(0) == 0) by {
        let den = fx_sub_spec(FIVE_PI_SQ_FX as int, fx_mul_spec(0, FOUR_FX as int));
        lemma_fx_div_zero(den);
    }
    assert(fx_add_spec(0, HALF_PI_FX as int) == HALF_PI_FX);
}

fn fx_wrap_angle(a: i64) -> (r: i64)
    ensures
        r == fx_wrap_angle_spec(a as int),
        0 <= r < TWO_PI_FX,
{
    if a >= 0 {
        ((a as u64) % (TWO_PI_FX as u64)) as i64
    } else {
        let m: u64 = fx_abs_mag(a);
        let rm: u64 = m % (TWO_PI_FX as u64);
        if rm == 0 {
            0
        } else {
            TWO_PI_FX - (rm as i64)
        }
    }
}

fn half_wave(x: i64) -> (r: i64)
    requires
        0 <= x < PI_FX,
    ensures
        r == half_wave_spec(x as int),
        fx_ok(r as int),
{
    let t = fx_mul(x, PI_FX - x);
    fx_div(fx_mul(t, SIXTEEN_FX), fx_sub(FIVE_PI_SQ_FX, fx_mul(t, FOUR_FX)))
}

pub fn fx_sin(a: i64) -> (r: i64)
    ensures
        r == fx_sin_spec(a as int),
        fx_ok(r as int),
{
    let m = fx_wrap_angle(a);
    if m == HALF_PI_FX {
        FX_ONE
    } else if m == PI_FX + HALF_PI_FX {
        -FX_ONE
    } else if m < PI_FX {
        half_wave(m)
    } else {
        -half_wave(m - PI_FX)
    }
}

pub fn fx_cos(a: i64) -> (r: i64)
    requires
        fx_ok(a as int),
    ensures
        r == fx_cos_spec(a as int),
        fx_ok(r as int),
{
    fx_sin(fx_add(a, HALF_PI_FX))
}

/// Floor of the square root of a natural number, defined by counting up:
/// the value steps from `r` to `r + 1` exactly when `(r + 1)^2` is reached.
pub open spec fn sqrt_floor(n: nat) -> nat
    decreases n,
{
    if n == 0 {
        0
    } else {
        let r = sqrt_floor((n - 1) as nat);
        if (r + 1) * (r + 1) <= n { r + 1 } else { r }
    }
}

/// `sqrt_floor` is what its name says: the greatest `r` with `r^2 <= n`.
pub proof fn lemma_sqrt_floor(n: nat)
    ensures
        sqrt_floor(n) * sqrt_floor(n) <= n,
        n < (sqrt_floor(n) + 1) * (sqrt_floor(n) + 1),
    decreases n,
{
    if n == 0 {
        assert(sqrt_floor(0) == 0);
        assert(n < (sqrt_floor(n) + 1) * (sqrt_floor(n) + 1)) by (nonlinear_arith)
            requires
                n == 0,
                sqrt_floor(n) == 0,
        ;
    } else {
        lemma_sqrt_floor((n - 1) as nat);
        let r: nat = sqrt_floor((n - 1) as nat);
        assert(r * r <= n - 1);
        assert((n - 1) < (r + 1) * (r + 1));
        if (r + 1) * (r + 1) <= n {
            assert(sqrt_floor(n) == r + 1);
            assert(n < ((r + 1) + 1) * ((r + 1) + 1)) by (nonlinear_arith)
                requires
                    n >= 1,
                    (n - 1) < (r + 1) * (r + 1),
            ;
        } else {
            assert(sqrt_floor(n) == r);
            assert(n < (r + 1) * (r + 1));
        }
    }
}

/// Any `r` with `r^2 <= n < (r+1)^2` is `sqrt_floor(n)`.
pub proof fn lemma_sqrt_floor_unique(n: nat, r: nat)
    requires
        r * r <= n,
        n < (r + 1) * (r + 1),
    ensures
        r == sqrt_floor(n),
{
    lemma_sqrt_floor(n);
    let s = sqrt_floor(n);
    assert(r == s) by (nonlinear_arith)
        requires
            r * r <= n,
            n < (r + 1) * (r + 1),
            s * s <= n,
            n < (s + 1) * (s + 1),
    ;
}

/// Square root of a fixed-point value: `sqrt(a / 65536) * 65536`, i.e. the
/// integer square root of `a * 65536`, floored.  Negative input yields zero.
pub open spec fn fx_sqrt_spec(a: int) -> int {
    if a <= 0 {
        0
    } else {
        sqrt_floor((a * (FX_ONE as int)) as nat) as int
    }
}

/// Integer square root by binary search.
fn isqrt_u64(x: u64) -> (r: u64)
    requires
        x <= 0x7fff_ffff_ffff_ffff,
    ensures
        r == sqrt_floor(x as nat),
{
    let mut lo: u64 = 0;
    let mut hi: u64 = 0xffff_ffff;
    if x < 0xffff_ffff {
        hi = x + 1;
        proof {
            assert((hi as int) * (hi as int) > x as int) by (nonlinear_arith)
                requires
                    hi == x + 1,
            ;
        }
    } else {
        assert(0xffff_ffffu64 * 0xffff_ffffu64 > 0x7fff_ffff_ffff_ffffu64) by (nonlinear_arith);
    }
    while lo + 1 < hi
        invariant
            lo < hi,
            (lo as int) * (lo as int) <= x as int,
            (hi as int) * (hi as int) > x as int,
            hi <= 0xffff_ffff,
        decreases hi - lo,
    {
        let mid: u64 = lo + (hi - lo) / 2;
        proof {
            assert((mid as int) * (mid as int) <= 0xffff_ffff_0000_0000) by (nonlinear_arith)
                requires
                    0 <= mid as int <= 0xffff_ffff,
            ;
        }
        if (mid as u128) * (mid as u128) <= x as u128 {
            lo = mid;
        } else {
            hi = mid;
        }
    }
    proof {
        lemma_sqrt_floor_unique(x as nat, lo as nat);
    }
    lo
}

pub fn fx_sqrt(a: i64) -> (r: i64)
    requires
        fx_ok(a as int),
    ensures
        r == fx_sqrt_spec(a as int),
        fx_ok(r as int),
        r >= 0,
{
    if a <= 0 {
        return 0;
    }
    let x: u64 = (a as u64) * 65536;
    let r = isqrt_u64(x);
    proof {
        lemma_sqrt_floor(x as nat);
        assert(r <= FX_SAT) by (nonlinear_arith)
            requires
                (r as int) * (r as int) <= x as int,
                x as int <= (FX_SAT as int) * (FX_ONE as int),
        ;
    }
    r as i64
}

} // verus!
