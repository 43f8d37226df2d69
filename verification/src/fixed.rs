//! Fixed-point scalar arithmetic.
//!
//! All geometric quantities in this crate are held as signed 64-bit raw
//! values denoting multiples of `1/SCALE`. The operations here are the exact
//! integer computations the rest of the library is specified against: a
//! truncating fixed-point product and a floor integer square root.

use vstd::prelude::*;
use vstd::arithmetic::div_mod::{lemma_div_is_ordered, lemma_div_multiples_vanish};

verus! {

/// Number of raw steps per world unit: a raw value `v` denotes `v / SCALE`.
pub const SCALE: i64 = 65536;

/// Largest operand magnitude `fx_mul_exec` accepts (2^39). Products of two
/// such operands stay far inside the unsigned 128-bit range used internally.
pub const FX_OP_LIMIT: i64 = 0x80_0000_0000;

/// Truncating (round-toward-zero) division of `a` by a positive `b`: the
/// quotient the machine's division instruction produces.
pub open spec fn div_trunc(a: int, b: int) -> int {
    if a >= 0 {
        a / b
    } else {
        -((-a) / b)
    }
}

/// The fixed-point product of two raw values: `(a * b) / SCALE`, truncated
/// toward zero.
pub open spec fn fx_mul(a: int, b: int) -> int {
    div_trunc(a * b, 65536)
}

/// The largest magnitude a fixed-point product of factors bounded by `ab`
/// and `bb` can reach.
pub open spec fn fx_mul_tight(ab: int, bb: int) -> int {
    (ab * bb) / 65536
}

/// Sharp magnitude bound for the fixed-point product: the factor bounds'
/// product, divided by `SCALE`.
pub proof fn lemma_fx_mul_tight(a: int, b: int, ab: int, bb: int)
    requires
        -ab <= a <= ab,
        -bb <= b <= bb,
        0 <= ab,
        0 <= bb,
    ensures
        -fx_mul_tight(ab, bb) <= fx_mul(a, b) <= fx_mul_tight(ab, bb),
{
    let s = 65536int;
    let m = ab * bb;
    assert(0 <= m && -m <= a * b <= m) by (nonlinear_arith)
        requires
            -ab <= a <= ab,
            -bb <= b <= bb,
            0 <= ab,
            0 <= bb,
            m == ab * bb;
    if a * b >= 0 {
        lemma_div_is_ordered(a * b, m, s);
        lemma_div_is_ordered(0, a * b, s);
    } else {
        lemma_div_is_ordered(-(a * b), m, s);
        lemma_div_is_ordered(0, -(a * b), s);
    }
}

/// Multiplying one raw unit (`SCALE`) by a raw value returns that value.
pub proof fn lemma_fx_mul_one(b: int)
    ensures
        fx_mul(65536, b) == b,
{
    let s = 65536int;
    lemma_div_multiples_vanish(b, s);
    assert(s * b == b * s) by (nonlinear_arith);
    if s * b >= 0 {
        assert(fx_mul(s, b) == (b * s) / s == b);
        assert(b >= 0) by (nonlinear_arith)
            requires
                s * b >= 0,
                s > 0;
    } else {
        assert(b < 0) by (nonlinear_arith)
            requires
                s * b < 0,
                s > 0;
        lemma_div_multiples_vanish(-b, s);
        assert(-(s * b) == (-b) * s) by (nonlinear_arith);
        assert(fx_mul(s, b) == -(((-b) * s) / s) == b);
    }
}

/// The fixed-point product is symmetric in its factors.
pub proof fn lemma_fx_mul_comm(a: int, b: int)
    ensures
        fx_mul(a, b) == fx_mul(b, a),
{
    assert(a * b == b * a) by (nonlinear_arith);
}

/// Negating one factor negates the fixed-point product.
pub proof fn lemma_fx_mul_neg(a: int, b: int)
    ensures
        fx_mul(-a, b) == -fx_mul(a, b),
{
    assert((-a) * b == -(a * b)) by (nonlinear_arith);
}

/// The fixed-point product of zero with anything is zero.
pub proof fn lemma_fx_mul_zero(b: int)
    ensures
        fx_mul(0, b) == 0,
        fx_mul(b, 0) == 0,
{
    assert(0 * b == 0) by (nonlinear_arith);
    assert(b * 0 == 0) by (nonlinear_arith);
    assert(div_trunc(0, 65536) == 0);
}

/// Executable fixed-point multiply: computes `fx_mul` exactly, through an
/// unsigned 128-bit magnitude product.
pub fn fx_mul_exec(a: i64, b: i64) -> (r: i64)
    requires
        -FX_OP_LIMIT <= a <= FX_OP_LIMIT,
        -FX_OP_LIMIT <= b <= FX_OP_LIMIT,
    ensures
        r as int == fx_mul(a as int, b as int),
{
    let neg: bool = (a < 0) != (b < 0);
    let aa: u64 = if a < 0 {
        (-a) as u64
    } else {
        a as u64
    };
    let bb: u64 = if b < 0 {
        (-b) as u64
    } else {
        b as u64
    };
    proof {
        assert((aa as int) * (bb as int) <= 0x80_0000_0000int * 0x80_0000_0000int)
            by (nonlinear_arith)
            requires
                0 <= aa as int && aa as int <= 0x80_0000_0000,
                0 <= bb as int && bb as int <= 0x80_0000_0000;
    }
    let p: u128 = (aa as u128) * (bb as u128);
    let q: u128 = p / 65536;
    proof {
        lemma_div_is_ordered(p as int, 0x4000_0000_0000_0000_0000int, 65536);
        assert(0x4000_0000_0000_0000_0000int / 65536int == 0x4000_0000_0000_0000int);
        let ai = a as int;
        let bi = b as int;
        if ai >= 0 && bi >= 0 {
            assert(ai * bi == (aa as int) * (bb as int)) by (nonlinear_arith)
                requires
                    ai >= 0 && bi >= 0 && aa as int == ai && bb as int == bi;
        } else if ai < 0 && bi < 0 {
            assert(ai * bi == (aa as int) * (bb as int)) by (nonlinear_arith)
                requires
                    ai < 0 && bi < 0 && aa as int == -ai && bb as int == -bi;
        } else {
            assert(ai * bi == -((aa as int) * (bb as int))) by (nonlinear_arith)
                requires
                    ((ai < 0 && bi >= 0) || (ai >= 0 && bi < 0)),
                    aa as int == if ai < 0 { -ai } else { ai },
                    bb as int == if bi < 0 { -bi } else { bi };
        }
    }
    if neg {
        -(q as i64)
    } else {
        q as i64
    }
}

/// `r` is the floor square root of `n`.
pub open spec fn is_sqrt(n: int, r: int) -> bool {
    0 <= r && r * r <= n && n < (r + 1) * (r + 1)
}

/// The floor square root of a non-negative integer, as a mathematical value.
pub open spec fn sqrt_floor(n: int) -> int {
    choose|r: int| is_sqrt(n, r)
}

/// Two floor square roots of the same number are equal.
pub proof fn lemma_sqrt_unique(n: int, r1: int, r2: int)
    requires
        is_sqrt(n, r1),
        is_sqrt(n, r2),
    ensures
        r1 == r2,
{
    if r1 < r2 {
        assert(false) by (nonlinear_arith)
            requires
                0 <= r1,
                0 <= r2,
                r1 < r2,
                r2 * r2 <= n,
                n < (r1 + 1) * (r1 + 1);
    }
    if r2 < r1 {
        assert(false) by (nonlinear_arith)
            requires
                0 <= r1,
                0 <= r2,
                r2 < r1,
                r1 * r1 <= n,
                n < (r2 + 1) * (r2 + 1);
    }
}

/// Every non-negative integer has a floor square root, and `sqrt_floor`
/// denotes it.
pub proof fn lemma_sqrt_exists(n: int)
    requires
        0 <= n,
    ensures
        is_sqrt(n, sqrt_floor(n)),
    decreases n,
{
    if n == 0 {
        assert(is_sqrt(0, 0)) by (nonlinear_arith);
    } else {
        lemma_sqrt_exists(n - 1);
        let r = sqrt_floor(n - 1);
        if n < (r + 1) * (r + 1) {
            assert(is_sqrt(n, r));
        } else {
            assert(is_sqrt(n, r + 1)) by (nonlinear_arith)
                requires
                    0 <= r,
                    n - 1 < (r + 1) * (r + 1),
                    (r + 1) * (r + 1) <= n;
        }
    }
    assert(exists|r: int| is_sqrt(n, r));
}

/// A value satisfying the floor-square-root characterization is `sqrt_floor`.
pub proof fn lemma_sqrt_is(n: int, r: int)
    requires
        is_sqrt(n, r),
    ensures
        sqrt_floor(n) == r,
{
    assert(exists|q: int| is_sqrt(n, q));
    assert(is_sqrt(n, sqrt_floor(n)));
    lemma_sqrt_unique(n, sqrt_floor(n), r);
}

/// If `n` lies below `b * b`, its floor square root lies below `b`.
pub proof fn lemma_sqrt_lt(n: int, r: int, b: int)
    requires
        is_sqrt(n, r),
        0 <= b,
        n < b * b,
    ensures
        r < b,
{
    assert(r < b) by (nonlinear_arith)
        requires
            0 <= r,
            0 <= b,
            r * r <= n,
            n < b * b;
}

/// A number whose square is at most `n` is bounded by the floor square root
/// of `n` in magnitude.
pub proof fn lemma_sqrt_ge_abs(n: int, r: int, x: int)
    requires
        is_sqrt(n, r),
        x * x <= n,
    ensures
        -r <= x <= r,
{
    assert(-r <= x <= r) by (nonlinear_arith)
        requires
            0 <= r,
            x * x <= n,
            n < (r + 1) * (r + 1);
}

/// Executable floor square root by bisection.
pub fn isqrt(n: u128) -> (r: u128)
    ensures
        is_sqrt(n as int, r as int),
        r as int == sqrt_floor(n as int),
{
    let mut lo: u128 = 0;
    let mut hi: u128 = 0x1_0000_0000_0000_0000;
    proof {
        assert(0x1_0000_0000_0000_0000int * 0x1_0000_0000_0000_0000int
            == 0x1_0000_0000_0000_0000_0000_0000_0000_0000int) by (nonlinear_arith);
    }
    while lo + 1 < hi
        invariant
            lo < hi <= 0x1_0000_0000_0000_0000u128,
            (lo as int) * (lo as int) <= n as int,
            (n as int) < (hi as int) * (hi as int),
        decreases hi - lo,
    {
        let mid: u128 = lo + (hi - lo) / 2;
        proof {
            assert((mid as int) * (mid as int) <= 0xffff_ffff_ffff_ffff_ffff_ffff_ffff_ffffint)
                by (nonlinear_arith)
                requires
                    0 <= mid as int && (mid as int) < 0x1_0000_0000_0000_0000int;
        }
        if mid * mid <= n {
            lo = mid;
        } else {
            hi = mid;
        }
    }
    proof {
        assert(is_sqrt(n as int, lo as int));
        lemma_sqrt_is(n as int, lo as int);
    }
    lo
}

} // verus!
