//! Fixed-point 3x3 and 4x4 matrices, stored as columns.
//!
//! Only what the transform pipeline needs is defined: the 4x4 product (at
//! the specification level), a translation matrix, the embedding of a 3x3
//! rotation, the rotation by 45 degrees about a unit axis, and the proof
//! that a model matrix built as rotation block plus translation column is
//! exactly the product of the two.

use vstd::prelude::*;
use crate::fixed::{
    fx_mul, fx_mul_exec, lemma_fx_mul_one, lemma_fx_mul_zero, lemma_fx_mul_comm,
    lemma_fx_mul_tight,
};
use crate::vec::{Vec3Fx, Vec4Fx, bounded3};

verus! {

/// The mathematical value of a 3x3 matrix: its three columns.
pub type Mat3View = ((int, int, int), (int, int, int), (int, int, int));

/// The mathematical value of a 4x4 matrix: its four columns.
pub type Mat4View = ((int, int, int, int), (int, int, int, int), (int, int, int, int), (int, int, int, int));

/// A 3x3 matrix of fixed-point raw values, stored as columns.
#[derive(Clone, Copy, PartialEq, Eq, Structural, Debug)]
pub struct Mat3Fx {
    pub x_axis: Vec3Fx,
    pub y_axis: Vec3Fx,
    pub z_axis: Vec3Fx,
}

/// A 4x4 matrix of fixed-point raw values, stored as columns.
#[derive(Clone, Copy, PartialEq, Eq, Structural, Debug)]
pub struct Mat4Fx {
    pub x_axis: Vec4Fx,
    pub y_axis: Vec4Fx,
    pub z_axis: Vec4Fx,
    pub w_axis: Vec4Fx,
}

impl View for Mat3Fx {
    type V = Mat3View;

    open spec fn view(&self) -> Mat3View {
        (self.x_axis@, self.y_axis@, self.z_axis@)
    }
}

impl View for Mat4Fx {
    type V = Mat4View;

    open spec fn view(&self) -> Mat4View {
        (self.x_axis@, self.y_axis@, self.z_axis@, self.w_axis@)
    }
}

/// A 4x4 matrix applied to a 4-vector, in fixed-point arithmetic.
pub open spec fn mat4_apply(a: Mat4View, v: (int, int, int, int)) -> (int, int, int, int) {
    (
        fx_mul(a.0.0, v.0) + fx_mul(a.1.0, v.1) + fx_mul(a.2.0, v.2) + fx_mul(a.3.0, v.3),
        fx_mul(a.0.1, v.0) + fx_mul(a.1.1, v.1) + fx_mul(a.2.1, v.2) + fx_mul(a.3.1, v.3),
        fx_mul(a.0.2, v.0) + fx_mul(a.1.2, v.1) + fx_mul(a.2.2, v.2) + fx_mul(a.3.2, v.3),
        fx_mul(a.0.3, v.0) + fx_mul(a.1.3, v.1) + fx_mul(a.2.3, v.2) + fx_mul(a.3.3, v.3),
    )
}

/// The 4x4 matrix product: each column of the result is `a` applied to the
/// corresponding column of `b`.
pub open spec fn mat4_mul(a: Mat4View, b: Mat4View) -> Mat4View {
    (mat4_apply(a, b.0), mat4_apply(a, b.1), mat4_apply(a, b.2), mat4_apply(a, b.3))
}

/// The translation matrix: identity with `p` in the last column.
pub open spec fn translation_mat(p: (int, int, int)) -> Mat4View {
    (
        (65536int, 0int, 0int, 0int),
        (0int, 65536int, 0int, 0int),
        (0int, 0int, 65536int, 0int),
        (p.0, p.1, p.2, 65536int),
    )
}

/// A 3x3 rotation embedded in the upper-left block of a 4x4 matrix.
pub open spec fn rot_embed(r: Mat3View) -> Mat4View {
    (
        (r.0.0, r.0.1, r.0.2, 0int),
        (r.1.0, r.1.1, r.1.2, 0int),
        (r.2.0, r.2.1, r.2.2, 0int),
        (0int, 0int, 0int, 65536int),
    )
}

/// The model matrix of a placement: the rotation block with the position as
/// translation column.
pub open spec fn model_mat(r: Mat3View, p: (int, int, int)) -> Mat4View {
    (
        (r.0.0, r.0.1, r.0.2, 0int),
        (r.1.0, r.1.1, r.1.2, 0int),
        (r.2.0, r.2.1, r.2.2, 0int),
        (p.0, p.1, p.2, 65536int),
    )
}

/// Packing a model matrix as rotation block plus translation column agrees
/// exactly with multiplying the translation matrix by the embedded rotation:
/// the model matrix is translation composed with rotation.
pub proof fn lemma_model_is_translation_times_rotation(r: Mat3View, p: (int, int, int))
    ensures
        mat4_mul(translation_mat(p), rot_embed(r)) == model_mat(r, p),
{
    lemma_fx_mul_one(r.0.0);
    lemma_fx_mul_one(r.0.1);
    lemma_fx_mul_one(r.0.2);
    lemma_fx_mul_one(r.1.0);
    lemma_fx_mul_one(r.1.1);
    lemma_fx_mul_one(r.1.2);
    lemma_fx_mul_one(r.2.0);
    lemma_fx_mul_one(r.2.1);
    lemma_fx_mul_one(r.2.2);
    lemma_fx_mul_one(65536);
    lemma_fx_mul_one(0);
    lemma_fx_mul_zero(r.0.0);
    lemma_fx_mul_zero(r.0.1);
    lemma_fx_mul_zero(r.0.2);
    lemma_fx_mul_zero(r.1.0);
    lemma_fx_mul_zero(r.1.1);
    lemma_fx_mul_zero(r.1.2);
    lemma_fx_mul_zero(r.2.0);
    lemma_fx_mul_zero(r.2.1);
    lemma_fx_mul_zero(r.2.2);
    lemma_fx_mul_zero(p.0);
    lemma_fx_mul_zero(p.1);
    lemma_fx_mul_zero(p.2);
    lemma_fx_mul_zero(65536);
    lemma_fx_mul_comm(p.0, 65536);
    lemma_fx_mul_comm(p.1, 65536);
    lemma_fx_mul_comm(p.2, 65536);
    lemma_fx_mul_one(p.0);
    lemma_fx_mul_one(p.1);
    lemma_fx_mul_one(p.2);
}

/// The identity rotation.
pub open spec fn identity3() -> Mat3View {
    ((65536int, 0int, 0int), (0int, 65536int, 0int), (0int, 0int, 65536int))
}

/// Cosine (and sine) of 45 degrees as a fixed-point raw value: the floor
/// square root of `65536 * 65536 / 2`.
pub const HALF_SQRT2: i64 = 46340;

/// The rotation by 45 degrees about the unit axis `k`, by the axis-angle
/// formula with cosine and sine both `HALF_SQRT2` and `t = 1 - cos`.
pub open spec fn rot45_spec(k: (int, int, int)) -> Mat3View {
    (
        (
            fx_mul(19196, fx_mul(k.0, k.0)) + 46340,
            fx_mul(19196, fx_mul(k.0, k.1)) + fx_mul(46340, k.2),
            fx_mul(19196, fx_mul(k.0, k.2)) - fx_mul(46340, k.1),
        ),
        (
            fx_mul(19196, fx_mul(k.0, k.1)) - fx_mul(46340, k.2),
            fx_mul(19196, fx_mul(k.1, k.1)) + 46340,
            fx_mul(19196, fx_mul(k.1, k.2)) + fx_mul(46340, k.0),
        ),
        (
            fx_mul(19196, fx_mul(k.0, k.2)) + fx_mul(46340, k.1),
            fx_mul(19196, fx_mul(k.1, k.2)) - fx_mul(46340, k.0),
            fx_mul(19196, fx_mul(k.2, k.2)) + 46340,
        ),
    )
}

impl Mat3Fx {
    /// The identity rotation.
    pub fn identity() -> (m: Mat3Fx)
        ensures
            m@ == identity3(),
    {
        Mat3Fx {
            x_axis: Vec3Fx { x: 65536, y: 0, z: 0 },
            y_axis: Vec3Fx { x: 0, y: 65536, z: 0 },
            z_axis: Vec3Fx { x: 0, y: 0, z: 65536 },
        }
    }

    /// The rotation by 45 degrees about the (nominally unit) axis `k`.
    pub fn rot45_about(k: &Vec3Fx) -> (m: Mat3Fx)
        requires
            bounded3(k@, 0x2_0000),
        ensures
            m@ == rot45_spec(k@),
    {
        let xx: i64 = fx_mul_exec(k.x, k.x);
        let yy: i64 = fx_mul_exec(k.y, k.y);
        let zz: i64 = fx_mul_exec(k.z, k.z);
        let xy: i64 = fx_mul_exec(k.x, k.y);
        let xz: i64 = fx_mul_exec(k.x, k.z);
        let yz: i64 = fx_mul_exec(k.y, k.z);
        proof {
            lemma_fx_mul_tight(k@.0, k@.0, 0x2_0000, 0x2_0000);
            lemma_fx_mul_tight(k@.1, k@.1, 0x2_0000, 0x2_0000);
            lemma_fx_mul_tight(k@.2, k@.2, 0x2_0000, 0x2_0000);
            lemma_fx_mul_tight(k@.0, k@.1, 0x2_0000, 0x2_0000);
            lemma_fx_mul_tight(k@.0, k@.2, 0x2_0000, 0x2_0000);
            lemma_fx_mul_tight(k@.1, k@.2, 0x2_0000, 0x2_0000);
        }
        let txx: i64 = fx_mul_exec(19196, xx);
        let tyy: i64 = fx_mul_exec(19196, yy);
        let tzz: i64 = fx_mul_exec(19196, zz);
        let txy: i64 = fx_mul_exec(19196, xy);
        let txz: i64 = fx_mul_exec(19196, xz);
        let tyz: i64 = fx_mul_exec(19196, yz);
        let sx: i64 = fx_mul_exec(46340, k.x);
        let sy: i64 = fx_mul_exec(46340, k.y);
        let sz: i64 = fx_mul_exec(46340, k.z);
        proof {
            lemma_fx_mul_tight(19196, xx as int, 19196, 0x4_0000);
            lemma_fx_mul_tight(19196, yy as int, 19196, 0x4_0000);
            lemma_fx_mul_tight(19196, zz as int, 19196, 0x4_0000);
            lemma_fx_mul_tight(19196, xy as int, 19196, 0x4_0000);
            lemma_fx_mul_tight(19196, xz as int, 19196, 0x4_0000);
            lemma_fx_mul_tight(19196, yz as int, 19196, 0x4_0000);
            lemma_fx_mul_tight(46340, k@.0, 46340, 0x2_0000);
            lemma_fx_mul_tight(46340, k@.1, 46340, 0x2_0000);
            lemma_fx_mul_tight(46340, k@.2, 46340, 0x2_0000);
        }
        Mat3Fx {
            x_axis: Vec3Fx { x: txx + 46340, y: txy + sz, z: txz - sy },
            y_axis: Vec3Fx { x: txy - sz, y: tyy + 46340, z: tyz + sx },
            z_axis: Vec3Fx { x: txz + sy, y: tyz - sx, z: tzz + 46340 },
        }
    }
}

} // verus!
