//! Exact fixed-point arithmetic values: lengths, normalization, truncating
//! scaling, cross products, and the camera's derived vectors.

use render_core::camera::Camera;
use render_core::vec::Vec3Fx;

#[test]
fn length_of_a_pythagorean_triple_is_exact() {
    // (3, 4, 0) world units has length exactly 5
    let v = Vec3Fx { x: 3 * 65536, y: 4 * 65536, z: 0 };
    assert_eq!(v.length(), 5 * 65536);
}

#[test]
fn length_rounds_down() {
    // |(1, 1, 1)| = sqrt(3) ~ 1.7320508; the floor square root of the raw
    // sum of squares is 113511 (raw), just below sqrt(3) * 65536 ~ 113511.68
    let v = Vec3Fx { x: 65536, y: 65536, z: 65536 };
    assert_eq!(v.length(), 113511);
}

#[test]
fn normalize_along_an_axis_is_exact() {
    let v = Vec3Fx { x: 0, y: 0, z: -131072 };
    let n = v.normalize_or_zero();
    assert_eq!(n, Vec3Fx { x: 0, y: 0, z: -65536 });
}

#[test]
fn normalize_of_zero_is_zero() {
    let v = Vec3Fx { x: 0, y: 0, z: 0 };
    assert_eq!(v.normalize_or_zero(), v);
}

#[test]
fn scaling_truncates_toward_zero() {
    // -3 * 0.5 = -1.5 truncates to -1 raw step; +3 * 0.5 = 1.5 truncates to 1
    let v = Vec3Fx { x: -3, y: 3, z: 0 };
    let r = v.scaled(32768);
    assert_eq!(r, Vec3Fx { x: -1, y: 1, z: 0 });
}

#[test]
fn cross_of_unit_axes_is_the_third_axis() {
    let x = Vec3Fx { x: 65536, y: 0, z: 0 };
    let y = Vec3Fx { x: 0, y: 65536, z: 0 };
    assert_eq!(x.cross(&y), Vec3Fx { x: 0, y: 0, z: 65536 });
}

#[test]
fn camera_forward_and_right_are_exact_on_axes() {
    let cam = Camera {
        eye: Vec3Fx { x: 0, y: 0, z: 131072 },
        target: Vec3Fx { x: 0, y: 0, z: 0 },
        up: Vec3Fx { x: 0, y: 65536, z: 0 },
        aspect: 65536,
        fov_y: 45 * 65536,
        z_near: 6554,
        z_far: 100 * 65536,
    };
    assert_eq!(cam.forward(), Vec3Fx { x: 0, y: 0, z: -131072 });
    // normalized forward is -Z; (-Z) x (+Y) = +X
    assert_eq!(cam.right(), Vec3Fx { x: 65536, y: 0, z: 0 });
}
