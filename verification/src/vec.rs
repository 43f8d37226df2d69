//! Fixed-point 3- and 4-component vectors.
//!
//! A vector's mathematical value is the triple (or quadruple) of its raw
//! components as unbounded integers; every executable operation is specified
//! exactly against the spec-level operation on that model.

use vstd::prelude::*;
use crate::fixed::{
    FX_OP_LIMIT, div_trunc, fx_mul, lemma_fx_mul_tight, sqrt_floor, is_sqrt, isqrt,
    fx_mul_exec, lemma_sqrt_lt, lemma_sqrt_ge_abs,
};
use vstd::arithmetic::div_mod::{lemma_div_is_ordered, lemma_div_multiples_vanish};

verus! {

/// A 3-vector of fixed-point raw values.
#[derive(Clone, Copy, PartialEq, Eq, Structural, Debug)]
pub struct Vec3Fx {
    pub x: i64,
    pub y: i64,
    pub z: i64,
}

/// A 4-vector of fixed-point raw values (colours, matrix columns).
#[derive(Clone, Copy, PartialEq, Eq, Structural, Debug)]
pub struct Vec4Fx {
    pub x: i64,
    pub y: i64,
    pub z: i64,
    pub w: i64,
}

impl View for Vec3Fx {
    type V = (int, int, int);

    open spec fn view(&self) -> (int, int, int) {
        (self.x as int, self.y as int, self.z as int)
    }
}

impl View for Vec4Fx {
    type V = (int, int, int, int);

    open spec fn view(&self) -> (int, int, int, int) {
        (self.x as int, self.y as int, self.z as int, self.w as int)
    }
}

/// Each component of `a` has magnitude at most `b`.
pub open spec fn bounded3(a: (int, int, int), b: int) -> bool {
    &&& -b <= a.0 <= b
    &&& -b <= a.1 <= b
    &&& -b <= a.2 <= b
}

/// Component-wise sum.
pub open spec fn vadd(a: (int, int, int), b: (int, int, int)) -> (int, int, int) {
    (a.0 + b.0, a.1 + b.1, a.2 + b.2)
}

/// Component-wise difference.
pub open spec fn vsub(a: (int, int, int), b: (int, int, int)) -> (int, int, int) {
    (a.0 - b.0, a.1 - b.1, a.2 - b.2)
}

/// Fixed-point scaling of each component by `s`.
pub open spec fn vscale(a: (int, int, int), s: int) -> (int, int, int) {
    (fx_mul(a.0, s), fx_mul(a.1, s), fx_mul(a.2, s))
}

/// Sum of squared raw components (scale `SCALE * SCALE`).
pub open spec fn vlen2(a: (int, int, int)) -> int {
    a.0 * a.0 + a.1 * a.1 + a.2 * a.2
}

/// Euclidean length as a fixed-point raw value: the floor square root of the
/// sum of squared components.
pub open spec fn vlen(a: (int, int, int)) -> int {
    sqrt_floor(vlen2(a))
}

/// One component of the normalized vector: `c * SCALE / l`, truncated.
pub open spec fn norm_comp(c: int, l: int) -> int {
    div_trunc(c * 65536, l)
}

/// Normalization that maps the zero vector to the zero vector, and any other
/// vector to one of length (approximately) one unit.
pub open spec fn vnorm_or_zero(a: (int, int, int)) -> (int, int, int) {
    if vlen2(a) == 0 {
        (0int, 0int, 0int)
    } else {
        (norm_comp(a.0, vlen(a)), norm_comp(a.1, vlen(a)), norm_comp(a.2, vlen(a)))
    }
}

/// Fixed-point cross product.
pub open spec fn vcross(a: (int, int, int), b: (int, int, int)) -> (int, int, int) {
    (
        fx_mul(a.1, b.2) - fx_mul(a.2, b.1),
        fx_mul(a.2, b.0) - fx_mul(a.0, b.2),
        fx_mul(a.0, b.1) - fx_mul(a.1, b.0),
    )
}

impl Vec3Fx {
    /// The zero vector.
    pub fn zero() -> (r: Vec3Fx)
        ensures
            r@ == (0int, 0int, 0int),
    {
        Vec3Fx { x: 0, y: 0, z: 0 }
    }

    /// Builds a vector from raw components.
    pub fn new(x: i64, y: i64, z: i64) -> (r: Vec3Fx)
        ensures
            r@ == (x as int, y as int, z as int),
    {
        Vec3Fx { x, y, z }
    }

    /// Component-wise sum.
    pub fn plus(self, o: Vec3Fx) -> (r: Vec3Fx)
        requires
            bounded3(self@, 0x2000_0000_0000_0000),
            bounded3(o@, 0x2000_0000_0000_0000),
        ensures
            r@ == vadd(self@, o@),
    {
        Vec3Fx { x: self.x + o.x, y: self.y + o.y, z: self.z + o.z }
    }

    /// Component-wise difference.
    pub fn minus(self, o: Vec3Fx) -> (r: Vec3Fx)
        requires
            bounded3(self@, 0x2000_0000_0000_0000),
            bounded3(o@, 0x2000_0000_0000_0000),
        ensures
            r@ == vsub(self@, o@),
    {
        Vec3Fx { x: self.x - o.x, y: self.y - o.y, z: self.z - o.z }
    }

    /// Fixed-point scaling by `s`.
    pub fn scaled(self, s: i64) -> (r: Vec3Fx)
        requires
            bounded3(self@, FX_OP_LIMIT as int),
            -FX_OP_LIMIT <= s <= FX_OP_LIMIT,
        ensures
            r@ == vscale(self@, s as int),
    {
        Vec3Fx {
            x: fx_mul_exec(self.x, s),
            y: fx_mul_exec(self.y, s),
            z: fx_mul_exec(self.z, s),
        }
    }

    /// Euclidean length, as a fixed-point raw value.
    pub fn length(&self) -> (l: i64)
        requires
            bounded3(self@, 0x1_0000_0000_0000),
        ensures
            l as int == vlen(self@),
            is_sqrt(vlen2(self@), l as int),
            0 <= l < 0x2_0000_0000_0000,
    {
        let ax: u64 = if self.x < 0 {
            (-self.x) as u64
        } else {
            self.x as u64
        };
        let ay: u64 = if self.y < 0 {
            (-self.y) as u64
        } else {
            self.y as u64
        };
        let az: u64 = if self.z < 0 {
            (-self.z) as u64
        } else {
            self.z as u64
        };
        proof {
            assert((ax as int) * (ax as int) == self@.0 * self@.0) by (nonlinear_arith)
                requires
                    ax as int == if self@.0 < 0 { -self@.0 } else { self@.0 };
            assert((ay as int) * (ay as int) == self@.1 * self@.1) by (nonlinear_arith)
                requires
                    ay as int == if self@.1 < 0 { -self@.1 } else { self@.1 };
            assert((az as int) * (az as int) == self@.2 * self@.2) by (nonlinear_arith)
                requires
                    az as int == if self@.2 < 0 { -self@.2 } else { self@.2 };
            assert((ax as int) * (ax as int) <= 0x1_0000_0000_0000_0000_0000_0000int)
                by (nonlinear_arith)
                requires
                    0 <= ax as int && ax as int <= 0x1_0000_0000_0000;
            assert((ay as int) * (ay as int) <= 0x1_0000_0000_0000_0000_0000_0000int)
                by (nonlinear_arith)
                requires
                    0 <= ay as int && ay as int <= 0x1_0000_0000_0000;
            assert((az as int) * (az as int) <= 0x1_0000_0000_0000_0000_0000_0000int)
                by (nonlinear_arith)
                requires
                    0 <= az as int && az as int <= 0x1_0000_0000_0000;
        }
        let xx: u128 = (ax as u128) * (ax as u128);
        let yy: u128 = (ay as u128) * (ay as u128);
        let zz: u128 = (az as u128) * (az as u128);
        let ss: u128 = xx + yy + zz;
        let r: u128 = isqrt(ss);
        proof {
            assert(0x2_0000_0000_0000int * 0x2_0000_0000_0000int
                == 0x4_0000_0000_0000_0000_0000_0000int) by (nonlinear_arith);
            lemma_sqrt_lt(ss as int, r as int, 0x2_0000_0000_0000int);
        }
        r as i64
    }

    /// Normalization with the zero-vector policy: the zero vector stays zero,
    /// anything else becomes (approximately) unit length.
    pub fn normalize_or_zero(&self) -> (r: Vec3Fx)
        requires
            bounded3(self@, 0x1_0000_0000_0000),
        ensures
            r@ == vnorm_or_zero(self@),
            bounded3(r@, 65536),
    {
        let l: i64 = self.length();
        if l == 0 {
            proof {
                assert(vlen2(self@) >= 0) by (nonlinear_arith);
                assert(is_sqrt(vlen2(self@), l as int));
                assert(is_sqrt(vlen2(self@), 0));
                assert(vlen2(self@) < (0 + 1) * (0 + 1));
                assert(vlen2(self@) < 1);
                assert(vlen2(self@) == 0);
                assert(vnorm_or_zero(self@) == (0int, 0int, 0int));
            }
            Vec3Fx { x: 0, y: 0, z: 0 }
        } else {
            proof {
                assert(self@.0 * self@.0 <= vlen2(self@)) by (nonlinear_arith);
                assert(self@.1 * self@.1 <= vlen2(self@)) by (nonlinear_arith);
                assert(self@.2 * self@.2 <= vlen2(self@)) by (nonlinear_arith);
                lemma_sqrt_ge_abs(vlen2(self@), l as int, self@.0);
                lemma_sqrt_ge_abs(vlen2(self@), l as int, self@.1);
                lemma_sqrt_ge_abs(vlen2(self@), l as int, self@.2);
                assert(vlen2(self@) >= 1) by (nonlinear_arith)
                    requires
                        1 <= l as int,
                        (l as int) * (l as int) <= vlen2(self@);
            }
            let rx: i64 = norm_comp_exec(self.x, l);
            let ry: i64 = norm_comp_exec(self.y, l);
            let rz: i64 = norm_comp_exec(self.z, l);
            proof {
                assert(vlen2(self@) != 0);
                assert(l as int == vlen(self@));
                assert(rx as int == norm_comp(self@.0, vlen(self@)));
                assert(ry as int == norm_comp(self@.1, vlen(self@)));
                assert(rz as int == norm_comp(self@.2, vlen(self@)));
                assert(vnorm_or_zero(self@) == (
                    norm_comp(self@.0, vlen(self@)),
                    norm_comp(self@.1, vlen(self@)),
                    norm_comp(self@.2, vlen(self@)),
                ));
            }
            Vec3Fx { x: rx, y: ry, z: rz }
        }
    }

    /// Fixed-point cross product, for operands within a few units of the
    /// origin (a normalized vector and an up vector).
    pub fn cross(&self, o: &Vec3Fx) -> (r: Vec3Fx)
        requires
            bounded3(self@, 0x40_0000),
            bounded3(o@, 0x40_0000),
        ensures
            r@ == vcross(self@, o@),
            bounded3(r@, 0x2000_0000),
    {
        proof {
            lemma_fx_mul_tight(self@.1, o@.2, 0x40_0000, 0x40_0000);
            lemma_fx_mul_tight(self@.2, o@.1, 0x40_0000, 0x40_0000);
            lemma_fx_mul_tight(self@.2, o@.0, 0x40_0000, 0x40_0000);
            lemma_fx_mul_tight(self@.0, o@.2, 0x40_0000, 0x40_0000);
            lemma_fx_mul_tight(self@.0, o@.1, 0x40_0000, 0x40_0000);
            lemma_fx_mul_tight(self@.1, o@.0, 0x40_0000, 0x40_0000);
        }
        Vec3Fx {
            x: fx_mul_exec(self.y, o.z) - fx_mul_exec(self.z, o.y),
            y: fx_mul_exec(self.z, o.x) - fx_mul_exec(self.x, o.z),
            z: fx_mul_exec(self.x, o.y) - fx_mul_exec(self.y, o.x),
        }
    }
}

/// One normalized component: `c * SCALE / l` with truncation, for `|c| <= l`.
fn norm_comp_exec(c: i64, l: i64) -> (r: i64)
    requires
        0 < l < 0x2_0000_0000_0000,
        -l <= c <= l,
    ensures
        r as int == norm_comp(c as int, l as int),
        -65536 <= r <= 65536,
{
    let neg: bool = c < 0;
    let ac: u64 = if neg {
        (-c) as u64
    } else {
        c as u64
    };
    let num: u128 = (ac as u128) * 65536;
    let q: u128 = num / (l as u128);
    proof {
        let li = l as int;
        let s = 65536int;
        lemma_div_multiples_vanish(s, li);
        assert((ac as int) * s <= li * s) by (nonlinear_arith)
            requires
                0 <= ac as int && ac as int <= li,
                s > 0;
        lemma_div_is_ordered((ac as int) * s, li * s, li);
        assert(li * s == li * s);
        assert((li * s) / li == s);
        if c >= 0 {
            assert(norm_comp(c as int, li) == ((c as int) * s) / li);
        } else {
            assert((-(c as int)) * s == -((c as int) * s)) by (nonlinear_arith);
            assert((c as int) * s <= 0) by (nonlinear_arith)
                requires
                    c as int <= 0,
                    s > 0;
        }
    }
    if neg {
        -(q as i64)
    } else {
        q as i64
    }
}

} // verus!
