//! The instance set: a fixed grid of placed objects and their packed
//! per-instance GPU records.
//!
//! The set is generated once: `grid_size * grid_size` instances on an XZ
//! grid centred on the origin, each with a procedural rotation (45 degrees
//! about its normalized position; none at the grid centre) and a random
//! grey colour. Each instance packs into a model matrix (translation
//! composed with rotation) paired with its colour.

use vstd::prelude::*;
use crate::vec::{Vec3Fx, Vec4Fx, bounded3, vnorm_or_zero};
use crate::mat::{Mat3Fx, Mat4Fx, Mat3View, model_mat, identity3, rot45_spec};
use vstd::arithmetic::div_mod::lemma_fundamental_div_mod_converse;

verus! {

/// Relies on rand::random: draws one value of the standard distribution.
/// Nothing is promised of which value comes back.
pub assume_specification<T>[ rand::random::<T> ]() -> (r: T)
    where
        rand::distributions::Standard: rand::distributions::Distribution<T>,
;

/// An instance's rotation: none (the grid-centre instance), or 45 degrees
/// about a unit axis.
#[derive(Clone, Copy, PartialEq, Eq, Structural, Debug)]
pub enum Rotation {
    Identity,
    AxisAngle45 { axis: Vec3Fx },
}

/// One placed instance: position, rotation, colour.
#[derive(Clone, Copy, PartialEq, Eq, Structural, Debug)]
pub struct Instance {
    pub position: Vec3Fx,
    pub rotation: Rotation,
    pub colour: Vec4Fx,
}

/// The packed per-instance record the GPU consumes as one instance-rate
/// vertex input: a model matrix and a colour.
#[derive(Clone, Copy, PartialEq, Eq, Structural, Debug)]
pub struct InstanceData {
    pub model: Mat4Fx,
    pub colour: Vec4Fx,
}

/// The raw coordinate of grid index `i` on a grid of `n` cells per row: the
/// index in raw units, offset by half the grid extent.
pub open spec fn grid_coord(i: int, n: int) -> int {
    i * 65536 - n * 32768
}

/// The position of the instance in column `x`, row `z`: on the XZ plane,
/// Y fixed at zero.
pub open spec fn grid_position(n: int, x: int, z: int) -> (int, int, int) {
    (grid_coord(x, n), 0int, grid_coord(z, n))
}

/// The rotation the generator assigns at position `p`: none at the origin,
/// else 45 degrees about the normalized position.
pub open spec fn rotation_matches(r: Rotation, p: (int, int, int)) -> bool {
    if p == (0int, 0int, 0int) {
        r == Rotation::Identity
    } else {
        match r {
            Rotation::AxisAngle45 { axis } => axis@ == vnorm_or_zero(p),
            Rotation::Identity => false,
        }
    }
}

impl Instance {
    /// Geometric envelope for packing: a position within 2^40 raw steps and,
    /// for a tilted instance, an axis of about unit length.
    pub open spec fn wf(self) -> bool {
        &&& bounded3(self.position@, 0x100_0000_0000)
        &&& match self.rotation {
            Rotation::Identity => true,
            Rotation::AxisAngle45 { axis } => bounded3(axis@, 0x2_0000),
        }
    }

    /// This instance's rotation matrix.
    pub open spec fn rot_view(self) -> Mat3View {
        match self.rotation {
            Rotation::Identity => identity3(),
            Rotation::AxisAngle45 { axis } => rot45_spec(axis@),
        }
    }

    /// Packs the transform and colour for the GPU: the model matrix is the
    /// translation to `position` composed with the rotation (see
    /// `lemma_model_is_translation_times_rotation`); the colour is carried
    /// unchanged.
    pub fn to_raw(&self) -> (r: InstanceData)
        requires
            self.wf(),
        ensures
            r.model@ == model_mat(self.rot_view(), self.position@),
            r.colour == self.colour,
    {
        let rot: Mat3Fx = match self.rotation {
            Rotation::Identity => Mat3Fx::identity(),
            Rotation::AxisAngle45 { axis } => Mat3Fx::rot45_about(&axis),
        };
        InstanceData {
            model: Mat4Fx {
                x_axis: Vec4Fx { x: rot.x_axis.x, y: rot.x_axis.y, z: rot.x_axis.z, w: 0 },
                y_axis: Vec4Fx { x: rot.y_axis.x, y: rot.y_axis.y, z: rot.y_axis.z, w: 0 },
                z_axis: Vec4Fx { x: rot.z_axis.x, y: rot.z_axis.y, z: rot.z_axis.z, w: 0 },
                w_axis: Vec4Fx {
                    x: self.position.x,
                    y: self.position.y,
                    z: self.position.z,
                    w: 65536,
                },
            },
            colour: self.colour,
        }
    }
}

/// Generates the grid with the given grey levels, one per instance, in row
/// order (`z` outer, `x` inner): instance `i` sits in column `i % n`, row
/// `i / n`, and takes grey level `greys[i]`.
pub fn generate_with_greys(grid_size: u32, greys: &Vec<i64>) -> (r: Vec<Instance>)
    requires
        grid_size <= 1024,
        greys.len() == grid_size * grid_size,
        forall|i: int| 0 <= i < greys.len() ==> 0 <= #[trigger] greys[i] < 65536,
    ensures
        r.len() == grid_size * grid_size,
        forall|i: int|
            0 <= i < r.len() ==> #[trigger] r[i].position@ == grid_position(
                grid_size as int,
                i % (grid_size as int),
                i / (grid_size as int),
            ),
        forall|i: int| 0 <= i < r.len() ==> rotation_matches(#[trigger] r[i].rotation, r[i].position@),
        forall|i: int|
            0 <= i < r.len() ==> #[trigger] r[i].colour@ == (
                greys[i] as int,
                greys[i] as int,
                greys[i] as int,
                65536int,
            ),
        forall|i: int| 0 <= i < r.len() ==> (#[trigger] r[i]).wf(),
{
    let n: u32 = grid_size;
    let mut out: Vec<Instance> = Vec::new();
    let mut z: u32 = 0;
    while z < n
        invariant
            z <= n <= 1024,
            greys.len() == n * n,
            forall|i: int| 0 <= i < greys.len() ==> 0 <= #[trigger] greys[i] < 65536,
            out.len() == z * n,
            forall|i: int|
                0 <= i < out.len() ==> #[trigger] out[i].position@ == grid_position(
                    n as int,
                    i % (n as int),
                    i / (n as int),
                ),
            forall|i: int|
                0 <= i < out.len() ==> rotation_matches(#[trigger] out[i].rotation, out[i].position@),
            forall|i: int|
                0 <= i < out.len() ==> #[trigger] out[i].colour@ == (
                    greys[i] as int,
                    greys[i] as int,
                    greys[i] as int,
                    65536int,
                ),
            forall|i: int| 0 <= i < out.len() ==> (#[trigger] out[i]).wf(),
        decreases n - z,
    {
        let mut x: u32 = 0;
        proof {
            assert((z as int) * (n as int) + (n as int) <= (n as int) * (n as int))
                by (nonlinear_arith)
                requires
                    0 <= z as int && (z as int) < (n as int);
            assert(((z as int) + 1) * (n as int) == (z as int) * (n as int) + (n as int))
                by (nonlinear_arith);
        }
        while x < n
            invariant
                x <= n,
                z < n,
                n <= 1024,
                greys.len() == n * n,
                forall|i: int| 0 <= i < greys.len() ==> 0 <= #[trigger] greys[i] < 65536,
                out.len() == (z as int) * (n as int) + x,
                (z as int) * (n as int) + (n as int) <= (n as int) * (n as int),
                forall|i: int|
                    0 <= i < out.len() ==> #[trigger] out[i].position@ == grid_position(
                        n as int,
                        i % (n as int),
                        i / (n as int),
                    ),
                forall|i: int|
                    0 <= i < out.len() ==> rotation_matches(
                        #[trigger] out[i].rotation,
                        out[i].position@,
                    ),
                forall|i: int|
                    0 <= i < out.len() ==> #[trigger] out[i].colour@ == (
                        greys[i] as int,
                        greys[i] as int,
                        greys[i] as int,
                        65536int,
                    ),
                forall|i: int| 0 <= i < out.len() ==> (#[trigger] out[i]).wf(),
            decreases n - x,
        {
            let px: i64 = (x as i64) * 65536 - (n as i64) * 32768;
            let pz: i64 = (z as i64) * 65536 - (n as i64) * 32768;
            let position: Vec3Fx = Vec3Fx { x: px, y: 0, z: pz };
            let rotation: Rotation = if px == 0 && pz == 0 {
                Rotation::Identity
            } else {
                Rotation::AxisAngle45 { axis: position.normalize_or_zero() }
            };
            let idx: usize = out.len();
            let g: i64 = greys[idx];
            let colour: Vec4Fx = Vec4Fx { x: g, y: g, z: g, w: 65536 };
            proof {
                lemma_fundamental_div_mod_converse(idx as int, n as int, z as int, x as int);
            }
            out.push(Instance { position, rotation, colour });
            x = x + 1;
        }
        z = z + 1;
    }
    out
}

/// Packs every instance's record into one sequence, preserving instance
/// order: record `i` is instance `i`'s, so draw calls may reference
/// instances by index range.
pub fn pack_instances(instances: &Vec<Instance>) -> (r: Vec<InstanceData>)
    requires
        forall|i: int| 0 <= i < instances.len() ==> (#[trigger] instances[i]).wf(),
    ensures
        r.len() == instances.len(),
        forall|i: int|
            0 <= i < r.len() ==> {
                &&& (#[trigger] r[i]).model@ == model_mat(
                    instances[i].rot_view(),
                    instances[i].position@,
                )
                &&& r[i].colour == instances[i].colour
            },
{
    let mut out: Vec<InstanceData> = Vec::new();
    let mut i: usize = 0;
    while i < instances.len()
        invariant
            i <= instances.len(),
            out.len() == i,
            forall|j: int| 0 <= j < instances.len() ==> (#[trigger] instances[j]).wf(),
            forall|j: int|
                0 <= j < out.len() ==> {
                    &&& (#[trigger] out[j]).model@ == model_mat(
                        instances[j].rot_view(),
                        instances[j].position@,
                    )
                    &&& out[j].colour == instances[j].colour
                },
        decreases instances.len() - i,
    {
        let d: InstanceData = instances[i].to_raw();
        out.push(d);
        i = i + 1;
    }
    out
}

/// One grey level drawn from the random source: the top 16 bits of a random
/// 32-bit value, uniform over [0, 65536).
fn random_grey() -> (g: i64)
    ensures
        0 <= g < 65536,
{
    let bits: u32 = rand::random::<u32>();
    let top: u32 = bits >> 16;
    proof {
        assert(bits >> 16u32 < 65536u32) by (bit_vector);
    }
    top as i64
}

/// Generates the full grid of instances with one random grey level each:
/// positions and rotations are as `generate_with_greys` pins them; each
/// colour replicates one grey level in [0, 1) across its three channels,
/// with alpha fixed at one.
pub fn generate(grid_size: u32) -> (r: Vec<Instance>)
    requires
        grid_size <= 1024,
    ensures
        r.len() == grid_size * grid_size,
        forall|i: int|
            0 <= i < r.len() ==> #[trigger] r[i].position@ == grid_position(
                grid_size as int,
                i % (grid_size as int),
                i / (grid_size as int),
            ),
        forall|i: int| 0 <= i < r.len() ==> rotation_matches(#[trigger] r[i].rotation, r[i].position@),
        forall|i: int|
            0 <= i < r.len() ==> {
                &&& (#[trigger] r[i]).colour@.0 == r[i].colour@.1
                &&& r[i].colour@.1 == r[i].colour@.2
                &&& 0 <= r[i].colour@.0 < 65536
                &&& r[i].colour@.3 == 65536
            },
        forall|i: int| 0 <= i < r.len() ==> (#[trigger] r[i]).wf(),
{
    proof {
        assert((grid_size as int) * (grid_size as int) <= 0x10_0000) by (nonlinear_arith)
            requires
                0 <= grid_size as int && grid_size as int <= 1024;
    }
    let total: u32 = grid_size * grid_size;
    let mut greys: Vec<i64> = Vec::new();
    while greys.len() < total as usize
        invariant
            greys.len() <= total,
            forall|i: int| 0 <= i < greys.len() ==> 0 <= #[trigger] greys[i] < 65536,
        decreases total as int - greys.len(),
    {
        let g: i64 = random_grey();
        greys.push(g);
    }
    generate_with_greys(grid_size, &greys)
}

} // verus!
