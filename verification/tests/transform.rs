//! Transform packing: the model matrix equals translation composed with
//! rotation, the colour rides through unchanged, and packing preserves
//! instance order.

use render_core::instance::{pack_instances, Instance, Rotation};
use render_core::vec::{Vec3Fx, Vec4Fx};

fn fx(v: f64) -> i64 {
    (v * 65536.0).round() as i64
}

fn fl(r: i64) -> f64 {
    (r as f64) / 65536.0
}

fn v3(x: f64, y: f64, z: f64) -> Vec3Fx {
    Vec3Fx { x: fx(x), y: fx(y), z: fx(z) }
}

#[test]
fn identity_rotation_packs_as_pure_translation() {
    let inst = Instance {
        position: v3(1.0, 2.0, 3.0),
        rotation: Rotation::Identity,
        colour: Vec4Fx { x: 100, y: 100, z: 100, w: 65536 },
    };
    let raw = inst.to_raw();
    assert_eq!(raw.model.x_axis, Vec4Fx { x: 65536, y: 0, z: 0, w: 0 });
    assert_eq!(raw.model.y_axis, Vec4Fx { x: 0, y: 65536, z: 0, w: 0 });
    assert_eq!(raw.model.z_axis, Vec4Fx { x: 0, y: 0, z: 65536, w: 0 });
    assert_eq!(raw.model.w_axis, Vec4Fx { x: fx(1.0), y: fx(2.0), z: fx(3.0), w: 65536 });
    assert_eq!(raw.colour, inst.colour);
}

#[test]
fn tilt_about_z_axis_packs_the_known_rotation() {
    let inst = Instance {
        position: v3(-0.5, 0.0, 4.0),
        rotation: Rotation::AxisAngle45 { axis: v3(0.0, 0.0, 1.0) },
        colour: Vec4Fx { x: 3000, y: 3000, z: 3000, w: 65536 },
    };
    let raw = inst.to_raw();
    let c = (45.0f64).to_radians().cos();
    let s = (45.0f64).to_radians().sin();
    // columns of rotation about +Z, with the position in the last column
    assert!((fl(raw.model.x_axis.x) - c).abs() < 1e-3);
    assert!((fl(raw.model.x_axis.y) - s).abs() < 1e-3);
    assert_eq!(raw.model.x_axis.z, 0);
    assert_eq!(raw.model.x_axis.w, 0);
    assert!((fl(raw.model.y_axis.x) + s).abs() < 1e-3);
    assert!((fl(raw.model.y_axis.y) - c).abs() < 1e-3);
    assert_eq!(raw.model.y_axis.z, 0);
    assert_eq!(raw.model.y_axis.w, 0);
    assert_eq!(raw.model.z_axis, Vec4Fx { x: 0, y: 0, z: 65536, w: 0 });
    assert_eq!(raw.model.w_axis, Vec4Fx { x: fx(-0.5), y: 0, z: fx(4.0), w: 65536 });
    assert_eq!(raw.colour, inst.colour);
}

#[test]
fn tilt_about_general_axis_matches_axis_angle_formula() {
    let inv_sqrt2 = 1.0f64 / 2.0f64.sqrt();
    let axis = (inv_sqrt2, 0.0f64, inv_sqrt2);
    let inst = Instance {
        position: v3(0.0, 0.0, 0.0),
        rotation: Rotation::AxisAngle45 { axis: v3(axis.0, axis.1, axis.2) },
        colour: Vec4Fx { x: 0, y: 0, z: 0, w: 65536 },
    };
    let raw = inst.to_raw();
    let c = (45.0f64).to_radians().cos();
    let s = (45.0f64).to_radians().sin();
    let t = 1.0 - c;
    let (x, y, z) = axis;
    let expected = [
        [t * x * x + c, t * x * y + s * z, t * x * z - s * y],
        [t * x * y - s * z, t * y * y + c, t * y * z + s * x],
        [t * x * z + s * y, t * y * z - s * x, t * z * z + c],
    ];
    let got = [
        [fl(raw.model.x_axis.x), fl(raw.model.x_axis.y), fl(raw.model.x_axis.z)],
        [fl(raw.model.y_axis.x), fl(raw.model.y_axis.y), fl(raw.model.y_axis.z)],
        [fl(raw.model.z_axis.x), fl(raw.model.z_axis.y), fl(raw.model.z_axis.z)],
    ];
    for col in 0..3 {
        for row in 0..3 {
            assert!((got[col][row] - expected[col][row]).abs() < 1e-3);
        }
    }
}

#[test]
fn packing_preserves_instance_order() {
    let a = Instance {
        position: v3(1.0, 0.0, 0.0),
        rotation: Rotation::Identity,
        colour: Vec4Fx { x: 1, y: 1, z: 1, w: 65536 },
    };
    let b = Instance {
        position: v3(0.0, 0.0, 2.0),
        rotation: Rotation::Identity,
        colour: Vec4Fx { x: 2, y: 2, z: 2, w: 65536 },
    };
    let c = Instance {
        position: v3(0.0, 3.0, 0.0),
        rotation: Rotation::Identity,
        colour: Vec4Fx { x: 3, y: 3, z: 3, w: 65536 },
    };
    let packed = pack_instances(&vec![a, b, c]);
    assert_eq!(packed.len(), 3);
    assert_eq!(packed[0].colour.x, 1);
    assert_eq!(packed[1].colour.x, 2);
    assert_eq!(packed[2].colour.x, 3);
    assert_eq!(packed[0].model.w_axis.x, fx(1.0));
    assert_eq!(packed[1].model.w_axis.z, fx(2.0));
    assert_eq!(packed[2].model.w_axis.y, fx(3.0));
}
