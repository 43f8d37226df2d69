//! The generated instance grid: count, positions, the centre instance's
//! rotation, the tilt axes, and the colour policy.

use render_core::instance::{generate, generate_with_greys, Rotation};

fn fl(r: i64) -> f64 {
    (r as f64) / 65536.0
}

#[test]
fn generate_ten_yields_one_hundred_instances() {
    let instances = generate(10);
    assert_eq!(instances.len(), 100);
}

#[test]
fn generate_positions_cover_the_offset_grid() {
    let n: usize = 10;
    let instances = generate(n as u32);
    for i in 0..instances.len() {
        let x = (i % n) as i64;
        let z = (i / n) as i64;
        let p = instances[i].position;
        assert_eq!(p.x, x * 65536 - (n as i64) * 32768);
        assert_eq!(p.y, 0);
        assert_eq!(p.z, z * 65536 - (n as i64) * 32768);
    }
}

#[test]
fn centre_instance_has_no_rotation_and_others_tilt() {
    let instances = generate(10);
    for i in 0..instances.len() {
        let p = instances[i].position;
        let at_origin = p.x == 0 && p.y == 0 && p.z == 0;
        match instances[i].rotation {
            Rotation::Identity => assert!(at_origin),
            Rotation::AxisAngle45 { .. } => assert!(!at_origin),
        }
    }
    // on a 10x10 grid the centre sits at column 5, row 5
    assert!(matches!(instances[55].rotation, Rotation::Identity));
}

#[test]
fn tilt_axes_are_the_normalized_positions() {
    let instances = generate(10);
    for i in 0..instances.len() {
        if let Rotation::AxisAngle45 { axis } = instances[i].rotation {
            let p = instances[i].position;
            let (px, py, pz) = (fl(p.x), fl(p.y), fl(p.z));
            let len = (px * px + py * py + pz * pz).sqrt();
            assert!(len > 0.0);
            assert!((fl(axis.x) - px / len).abs() < 1e-3);
            assert!((fl(axis.y) - py / len).abs() < 1e-3);
            assert!((fl(axis.z) - pz / len).abs() < 1e-3);
            let alen = (fl(axis.x).powi(2) + fl(axis.y).powi(2) + fl(axis.z).powi(2)).sqrt();
            assert!((alen - 1.0).abs() < 1e-3);
        }
    }
}

#[test]
fn colours_are_grey_with_opaque_alpha() {
    let instances = generate(10);
    for i in 0..instances.len() {
        let c = instances[i].colour;
        assert_eq!(c.x, c.y);
        assert_eq!(c.y, c.z);
        assert!(0 <= c.x && c.x < 65536);
        assert_eq!(c.w, 65536);
    }
}

#[test]
fn generate_with_greys_pins_each_colour() {
    let greys: Vec<i64> = vec![100, 200, 300, 400];
    let instances = generate_with_greys(2, &greys);
    assert_eq!(instances.len(), 4);
    for i in 0..4 {
        let c = instances[i].colour;
        assert_eq!(c.x, greys[i]);
        assert_eq!(c.y, greys[i]);
        assert_eq!(c.z, greys[i]);
        assert_eq!(c.w, 65536);
    }
}

#[test]
fn generate_zero_and_one_sized_grids() {
    assert_eq!(generate(0).len(), 0);
    let one = generate(1);
    assert_eq!(one.len(), 1);
    // a 1x1 grid has its single instance at (-0.5, 0, -0.5)
    assert_eq!(one[0].position.x, -32768);
    assert_eq!(one[0].position.y, 0);
    assert_eq!(one[0].position.z, -32768);
    assert!(matches!(one[0].rotation, Rotation::AxisAngle45 { .. }));
}
