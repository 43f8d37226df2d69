//! The camera: view state and keyboard-driven navigation.
//!
//! The camera holds an eye point, a target point, an up vector and lens
//! parameters, all as fixed-point raw values. Forward and back commands
//! translate the eye along the normalized forward vector; strafe commands
//! orbit the eye around the target at the current forward distance.

use vstd::prelude::*;
use vstd::arithmetic::div_mod::lemma_div_multiples_vanish;
use crate::fixed::{
    div_trunc, fx_mul, is_sqrt, lemma_fx_mul_neg, lemma_fx_mul_one, lemma_fx_mul_tight,
    lemma_fx_mul_zero, lemma_sqrt_is, lemma_sqrt_lt,
};
use crate::vec::{
    bounded3, norm_comp, vadd, vcross, vlen, vlen2, vnorm_or_zero, vscale, vsub, Vec3Fx,
};
use crate::events::{Key, KeyState, SurfaceEvent};

verus! {

/// Largest eye/target component magnitude navigation accepts (2^37 raw
/// steps, about two million world units from the origin).
pub const COORD_LIMIT: i64 = 0x20_0000_0000;

/// Largest up-vector component magnitude (2^22 raw steps; the up vector is
/// nominally unit length, `SCALE` raw steps).
pub const UP_LIMIT: i64 = 0x40_0000;

/// Largest movement speed a single command accepts (2^30 raw steps).
pub const SPEED_LIMIT: i64 = 0x4000_0000;

/// A discrete directional navigation command.
#[derive(Clone, Copy, PartialEq, Eq, Structural, Debug)]
pub enum NavCommand {
    Forward,
    Back,
    StrafeLeft,
    StrafeRight,
}

/// The navigation command a window event carries: a press (not a release)
/// of one of the four movement keys. Any other event carries none.
pub open spec fn event_nav_command(e: SurfaceEvent) -> Option<NavCommand> {
    match e {
        SurfaceEvent::Keyboard { key, state: KeyState::Pressed } => match key {
            Key::W => Some(NavCommand::Forward),
            Key::S => Some(NavCommand::Back),
            Key::A => Some(NavCommand::StrafeLeft),
            Key::D => Some(NavCommand::StrafeRight),
            _ => None::<NavCommand>,
        },
        _ => None::<NavCommand>,
    }
}

/// View state: eye, target and up, plus the lens parameters the projection
/// is derived from (field of view in degrees, aspect ratio, clip planes),
/// all fixed-point raw values.
#[derive(Clone, Copy, PartialEq, Eq, Structural, Debug)]
pub struct Camera {
    pub eye: Vec3Fx,
    pub target: Vec3Fx,
    pub up: Vec3Fx,
    pub aspect: i64,
    pub fov_y: i64,
    pub z_near: i64,
    pub z_far: i64,
}

impl Camera {
    /// Navigation's operating envelope: positions within `COORD_LIMIT` and a
    /// nominally unit-length up vector within `UP_LIMIT`.
    pub open spec fn wf(self) -> bool {
        &&& bounded3(self.eye@, COORD_LIMIT as int)
        &&& bounded3(self.target@, COORD_LIMIT as int)
        &&& bounded3(self.up@, UP_LIMIT as int)
    }

    /// The forward vector: target minus eye.
    pub open spec fn forward_vec(self) -> (int, int, int) {
        vsub(self.target@, self.eye@)
    }

    /// The right vector: normalized forward crossed with up.
    pub open spec fn right_vec(self) -> (int, int, int) {
        vcross(vnorm_or_zero(self.forward_vec()), self.up@)
    }

    /// Where one navigation command at the given speed puts the eye.
    /// Forward and back translate along the normalized forward vector;
    /// strafing re-derives the eye from the target, along the normalized
    /// combination of forward and the scaled right vector, at the previous
    /// forward distance (an orbit, not a lateral translation).
    pub open spec fn eye_after(self, cmd: NavCommand, speed: int) -> (int, int, int) {
        match cmd {
            NavCommand::Forward => vadd(
                self.eye@,
                vscale(vnorm_or_zero(self.forward_vec()), speed),
            ),
            NavCommand::Back => vsub(
                self.eye@,
                vscale(vnorm_or_zero(self.forward_vec()), speed),
            ),
            NavCommand::StrafeLeft => vsub(
                self.target@,
                vscale(
                    vnorm_or_zero(vadd(self.forward_vec(), vscale(self.right_vec(), speed))),
                    vlen(self.forward_vec()),
                ),
            ),
            NavCommand::StrafeRight => vsub(
                self.target@,
                vscale(
                    vnorm_or_zero(vsub(self.forward_vec(), vscale(self.right_vec(), speed))),
                    vlen(self.forward_vec()),
                ),
            ),
        }
    }

    /// The forward vector, target minus eye.
    pub fn forward(&self) -> (r: Vec3Fx)
        requires
            self.wf(),
        ensures
            r@ == self.forward_vec(),
    {
        self.target.minus(self.eye)
    }

    /// The right vector: normalized forward crossed with up.
    pub fn right(&self) -> (r: Vec3Fx)
        requires
            self.wf(),
        ensures
            r@ == self.right_vec(),
    {
        self.forward().normalize_or_zero().cross(&self.up)
    }

    /// Applies one navigation command to the eye; target, up and lens
    /// parameters are untouched.
    pub fn apply_navigation(&mut self, cmd: NavCommand, speed: i64)
        requires
            old(self).wf(),
            0 <= speed <= SPEED_LIMIT,
        ensures
            final(self).eye@ == old(self).eye_after(cmd, speed as int),
            final(self).target == old(self).target,
            final(self).up == old(self).up,
            final(self).aspect == old(self).aspect,
            final(self).fov_y == old(self).fov_y,
            final(self).z_near == old(self).z_near,
            final(self).z_far == old(self).z_far,
    {
        let fwd: Vec3Fx = self.target.minus(self.eye);
        match cmd {
            NavCommand::Forward => {
                let n: Vec3Fx = fwd.normalize_or_zero();
                let delta: Vec3Fx = n.scaled(speed);
                proof {
                    lemma_fx_mul_tight(n@.0, speed as int, 65536, 0x4000_0000);
                    lemma_fx_mul_tight(n@.1, speed as int, 65536, 0x4000_0000);
                    lemma_fx_mul_tight(n@.2, speed as int, 65536, 0x4000_0000);
                }
                self.eye = self.eye.plus(delta);
            },
            NavCommand::Back => {
                let n: Vec3Fx = fwd.normalize_or_zero();
                let delta: Vec3Fx = n.scaled(speed);
                proof {
                    lemma_fx_mul_tight(n@.0, speed as int, 65536, 0x4000_0000);
                    lemma_fx_mul_tight(n@.1, speed as int, 65536, 0x4000_0000);
                    lemma_fx_mul_tight(n@.2, speed as int, 65536, 0x4000_0000);
                }
                self.eye = self.eye.minus(delta);
            },
            NavCommand::StrafeLeft => {
                let mv: Vec3Fx = self.strafe_motion(fwd, speed, true);
                self.eye = self.target.minus(mv);
            },
            NavCommand::StrafeRight => {
                let mv: Vec3Fx = self.strafe_motion(fwd, speed, false);
                self.eye = self.target.minus(mv);
            },
        }
    }

    /// The vector from the target to the new eye position of a strafe:
    /// the normalized combination of forward and the scaled right vector,
    /// stretched to the previous forward distance.
    fn strafe_motion(&self, fwd: Vec3Fx, speed: i64, left: bool) -> (mv: Vec3Fx)
        requires
            self.wf(),
            0 <= speed <= SPEED_LIMIT,
            fwd@ == self.forward_vec(),
        ensures
            mv@ == vscale(
                vnorm_or_zero(
                    if left {
                        vadd(self.forward_vec(), vscale(self.right_vec(), speed as int))
                    } else {
                        vsub(self.forward_vec(), vscale(self.right_vec(), speed as int))
                    },
                ),
                vlen(self.forward_vec()),
            ),
            bounded3(mv@, 0x100_0000_0000),
    {
        let n: Vec3Fx = fwd.normalize_or_zero();
        let r: Vec3Fx = n.cross(&self.up);
        let rs: Vec3Fx = r.scaled(speed);
        proof {
            lemma_fx_mul_tight(r@.0, speed as int, 0x2000_0000, 0x4000_0000);
            lemma_fx_mul_tight(r@.1, speed as int, 0x2000_0000, 0x4000_0000);
            lemma_fx_mul_tight(r@.2, speed as int, 0x2000_0000, 0x4000_0000);
        }
        let dir: Vec3Fx = if left {
            fwd.plus(rs)
        } else {
            fwd.minus(rs)
        };
        let n2: Vec3Fx = dir.normalize_or_zero();
        let l1: i64 = fwd.length();
        proof {
            assert(fwd@.0 * fwd@.0 <= 0x1000_0000_0000_0000_0000int) by (nonlinear_arith)
                requires
                    -0x40_0000_0000 <= fwd@.0 <= 0x40_0000_0000;
            assert(fwd@.1 * fwd@.1 <= 0x1000_0000_0000_0000_0000int) by (nonlinear_arith)
                requires
                    -0x40_0000_0000 <= fwd@.1 <= 0x40_0000_0000;
            assert(fwd@.2 * fwd@.2 <= 0x1000_0000_0000_0000_0000int) by (nonlinear_arith)
                requires
                    -0x40_0000_0000 <= fwd@.2 <= 0x40_0000_0000;
            assert(0x80_0000_0000int * 0x80_0000_0000int == 0x4000_0000_0000_0000_0000int)
                by (nonlinear_arith);
            lemma_sqrt_lt(vlen2(fwd@), l1 as int, 0x80_0000_0000);
            lemma_fx_mul_tight(n2@.0, l1 as int, 65536, 0x80_0000_0000);
            lemma_fx_mul_tight(n2@.1, l1 as int, 65536, 0x80_0000_0000);
            lemma_fx_mul_tight(n2@.2, l1 as int, 65536, 0x80_0000_0000);
        }
        n2.scaled(l1)
    }

    /// Consumes a navigation key press and moves the eye accordingly; any
    /// other event is not consumed and leaves the camera untouched.
    pub fn input_move_camera(&mut self, event: &SurfaceEvent, speed: i64) -> (consumed: bool)
        requires
            old(self).wf(),
            0 <= speed <= SPEED_LIMIT,
        ensures
            consumed == (event_nav_command(*event) is Some),
            match event_nav_command(*event) {
                Some(cmd) => {
                    &&& final(self).eye@ == old(self).eye_after(cmd, speed as int)
                    &&& final(self).target == old(self).target
                    &&& final(self).up == old(self).up
                    &&& final(self).aspect == old(self).aspect
                    &&& final(self).fov_y == old(self).fov_y
                    &&& final(self).z_near == old(self).z_near
                    &&& final(self).z_far == old(self).z_far
                },
                None => *final(self) == *old(self),
            },
    {
        match *event {
            SurfaceEvent::Keyboard { key, state: KeyState::Pressed } => match key {
                Key::W => {
                    self.apply_navigation(NavCommand::Forward, speed);
                    true
                },
                Key::S => {
                    self.apply_navigation(NavCommand::Back, speed);
                    true
                },
                Key::A => {
                    self.apply_navigation(NavCommand::StrafeLeft, speed);
                    true
                },
                Key::D => {
                    self.apply_navigation(NavCommand::StrafeRight, speed);
                    true
                },
                _ => false,
            },
            _ => false,
        }
    }

    /// Re-derives the aspect ratio from a (non-zero) output size, as the
    /// fixed-point ratio of width over height.
    pub fn set_aspect(&mut self, width: u32, height: u32)
        requires
            1 <= height,
        ensures
            final(self).aspect as int == ((width as int) * 65536) / (height as int),
            final(self).eye == old(self).eye,
            final(self).target == old(self).target,
            final(self).up == old(self).up,
            final(self).fov_y == old(self).fov_y,
            final(self).z_near == old(self).z_near,
            final(self).z_far == old(self).z_far,
    {
        let num: u64 = (width as u64) * 65536;
        let q: u64 = num / (height as u64);
        proof {
            vstd::arithmetic::div_mod::lemma_div_nonincreasing(num as int, height as int);
        }
        self.aspect = q as i64;
    }
}

/// A degenerate forward vector produces no motion: when the eye sits on the
/// target, every navigation command leaves the eye exactly where it is (the
/// zero vector normalizes to zero instead of propagating a division).
pub proof fn lemma_degenerate_forward(cam: Camera, cmd: NavCommand, speed: int)
    requires
        cam.eye@ == cam.target@,
    ensures
        cam.eye_after(cmd, speed) == cam.eye@,
{
    let zero3 = (0int, 0int, 0int);
    assert(cam.forward_vec() == zero3);
    assert(vlen2(zero3) == 0);
    assert(vnorm_or_zero(zero3) == zero3);
    lemma_fx_mul_zero(speed);
    assert(vscale(zero3, speed) == zero3);
    assert(is_sqrt(0, 0));
    lemma_sqrt_is(0, 0);
    assert(vlen(zero3) == 0);
    assert(cam.right_vec() == vcross(zero3, cam.up@));
    lemma_fx_mul_zero(cam.up@.0);
    lemma_fx_mul_zero(cam.up@.1);
    lemma_fx_mul_zero(cam.up@.2);
    assert(vcross(zero3, cam.up@) == zero3);
    assert(vscale(vcross(zero3, cam.up@), speed) == zero3);
    assert(vadd(cam.forward_vec(), vscale(cam.right_vec(), speed)) == zero3);
    assert(vsub(cam.forward_vec(), vscale(cam.right_vec(), speed)) == zero3);
    lemma_fx_mul_zero(0);
    assert(vscale(zero3, 0) == zero3);
    match cmd {
        NavCommand::Forward => {
            assert(cam.eye_after(cmd, speed) == vadd(cam.eye@, zero3));
        },
        NavCommand::Back => {
            assert(cam.eye_after(cmd, speed) == vsub(cam.eye@, zero3));
        },
        NavCommand::StrafeLeft => {
            assert(cam.eye_after(cmd, speed) == vsub(cam.target@, zero3));
        },
        NavCommand::StrafeRight => {
            assert(cam.eye_after(cmd, speed) == vsub(cam.target@, zero3));
        },
    }
}

/// On a camera whose forward vector points straight down the Z axis with a
/// length of at least one raw step, fixed-point normalization is exact:
/// the normalized forward vector is (0, 0, -1) in raw units, and scaling it
/// by `speed` is exactly a step of `speed` along -Z.
proof fn lemma_axis_forward_motion(c: Camera, speed: int)
    requires
        c.eye@.0 == c.target@.0,
        c.eye@.1 == c.target@.1,
        1 <= c.eye@.2 - c.target@.2,
        0 <= speed,
    ensures
        vnorm_or_zero(c.forward_vec()) == (0int, 0int, -65536int),
        vscale(vnorm_or_zero(c.forward_vec()), speed) == (0int, 0int, -speed),
{
    let d = c.eye@.2 - c.target@.2;
    let f = c.forward_vec();
    assert(f == (0int, 0int, -d));
    assert((-d) * (-d) == d * d) by (nonlinear_arith);
    assert(0 * 0 == 0) by (nonlinear_arith);
    assert(vlen2(f) == d * d);
    assert(d * d < (d + 1) * (d + 1)) by (nonlinear_arith)
        requires
            1 <= d;
    assert(is_sqrt(d * d, d));
    lemma_sqrt_is(d * d, d);
    assert(vlen(f) == d);
    assert(1 <= d * d) by (nonlinear_arith)
        requires
            1 <= d;
    lemma_div_multiples_vanish(0, d);
    assert(d * 0 == 0) by (nonlinear_arith);
    assert(div_trunc(0, d) == 0);
    assert(norm_comp(0, d) == 0);
    lemma_div_multiples_vanish(65536, d);
    assert((-d) * 65536 == -(d * 65536)) by (nonlinear_arith);
    assert(d * 65536 >= 65536) by (nonlinear_arith)
        requires
            1 <= d;
    assert(norm_comp(-d, d) == -((d * 65536) / d));
    assert(norm_comp(-d, d) == -65536);
    assert(vnorm_or_zero(f) == (0int, 0int, -65536int));
    lemma_fx_mul_zero(speed);
    lemma_fx_mul_one(speed);
    lemma_fx_mul_neg(65536, speed);
    assert(fx_mul(-65536, speed) == -speed);
}

/// Forward/back round trip, exact on an axis-aligned forward vector: when
/// the target sits straight ahead of the eye along -Z and the step is
/// shorter than the forward distance, a forward command followed by a back
/// command at the same speed returns the eye to exactly its starting point.
/// (Off axis, truncation in the normalization makes the round trip exact
/// only to within one raw step per component.)
pub proof fn lemma_forward_back_round_trip(cam: Camera, speed: int)
    requires
        cam.eye@.0 == cam.target@.0,
        cam.eye@.1 == cam.target@.1,
        cam.target@.2 < cam.eye@.2,
        0 <= speed < cam.eye@.2 - cam.target@.2,
    ensures
        ({
            let moved = (Camera {
                eye: (Vec3Fx { x: cam.eye.x, y: cam.eye.y, z: (cam.eye@.2 - speed) as i64 }),
                ..cam
            });
            &&& cam.eye_after(NavCommand::Forward, speed) == moved.eye@
            &&& moved.eye_after(NavCommand::Back, speed) == cam.eye@
        }),
{
    lemma_axis_forward_motion(cam, speed);
    let moved = (Camera {
        eye: (Vec3Fx { x: cam.eye.x, y: cam.eye.y, z: (cam.eye@.2 - speed) as i64 }),
        ..cam
    });
    assert(moved.eye@.2 == cam.eye@.2 - speed);
    assert(cam.eye_after(NavCommand::Forward, speed) == vadd(cam.eye@, (0int, 0int, -speed)));
    assert(cam.eye_after(NavCommand::Forward, speed) == moved.eye@);
    assert(1 <= moved.eye@.2 - moved.target@.2);
    lemma_axis_forward_motion(moved, speed);
    assert(moved.eye_after(NavCommand::Back, speed) == vsub(moved.eye@, (0int, 0int, -speed)));
    assert(moved.eye_after(NavCommand::Back, speed) == cam.eye@);
}

} // verus!
