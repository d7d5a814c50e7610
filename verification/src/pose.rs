//! The player's continuous position and facing, with its geometry-only
//! movement transforms.
//!
//! A transform turns a speed magnitude into a displacement relative to
//! the current facing; it checks neither collision nor bounds — that is
//! the resolver's job.

use vstd::prelude::*;

use crate::trig::{cos_fp, sin_fp, spec_cos, spec_sin};
use crate::vec2::Vec2;

verus! {

/// Largest speed magnitude a transform accepts, in fixed-point units
/// per frame (1024 tiles per frame, far beyond any sane configuration).
pub const MAX_SPEED: i64 = 1048576;

/// `s` scaled by a trigonometric factor `t` in `[-1024, 1024]`:
/// `s * t / 1024`, rounded toward zero.
pub open spec fn spec_scale(s: int, t: int) -> int {
    if t >= 0 {
        (s * t) / 1024
    } else {
        -((s * -t) / 1024)
    }
}

/// `s * t / 1024` for `0 <= s <= MAX_SPEED` and `-1024 <= t <= 1024`.
fn scale_by_trig(s: i64, t: i64) -> (r: i64)
    requires
        0 <= s <= MAX_SPEED,
        -1024 <= t <= 1024,
    ensures
        r == spec_scale(s as int, t as int),
        -s <= r <= s,
{
    if t >= 0 {
        proof {
            assert(0 <= s * t <= s * 1024) by (nonlinear_arith)
                requires
                    0 <= s,
                    0 <= t <= 1024,
            ;
        }
        let prod: i64 = s * t;
        proof {
            vstd::arithmetic::div_mod::lemma_multiply_divide_le(prod as int, 1024, s as int);
        }
        prod / 1024
    } else {
        proof {
            assert(0 <= s * (-t) <= s * 1024) by (nonlinear_arith)
                requires
                    0 <= s,
                    0 <= -t <= 1024,
            ;
        }
        let prod: i64 = s * (-t);
        proof {
            vstd::arithmetic::div_mod::lemma_multiply_divide_le(prod as int, 1024, s as int);
        }
        -(prod / 1024)
    }
}

/// Position in fixed-point tile units and facing angle in whole
/// degrees. The angle is kept normalized to `[0, 360)` by every
/// rotation.
#[derive(Clone, Copy, PartialEq, Eq, Structural, Debug)]
pub struct Pose {
    pub position: Vec2,
    pub angle: u32,
}

impl Pose {
    /// The facing angle is normalized.
    pub open spec fn wf(&self) -> bool {
        self.angle < 360
    }

    /// Facing after a left turn by `degrees`, normalized.
    pub open spec fn spec_turn_left(angle: int, degrees: int) -> int {
        (angle + 360 - degrees) % 360
    }

    /// Facing after a right turn by `degrees`, normalized.
    pub open spec fn spec_turn_right(angle: int, degrees: int) -> int {
        (angle + degrees) % 360
    }

    /// Displacement of `move_forward`: `speed` along the facing
    /// direction, as an `(x, y)` pair.
    pub open spec fn spec_forward(self, speed: int) -> (int, int) {
        (spec_scale(speed, spec_cos(self.angle as int)), spec_scale(
            speed,
            spec_sin(self.angle as int),
        ))
    }

    /// Displacement of `move_back`: `speed` opposite the facing.
    pub open spec fn spec_back(self, speed: int) -> (int, int) {
        (-self.spec_forward(speed).0, -self.spec_forward(speed).1)
    }

    /// Displacement of `strafe_left`: `speed` perpendicular to the
    /// facing, a quarter turn to the left.
    pub open spec fn spec_strafe_left(self, speed: int) -> (int, int) {
        (
            spec_scale(speed, spec_cos((self.angle + 270) % 360)),
            spec_scale(speed, spec_sin((self.angle + 270) % 360)),
        )
    }

    /// Displacement of `strafe_right`: `speed` perpendicular to the
    /// facing, a quarter turn to the right.
    pub open spec fn spec_strafe_right(self, speed: int) -> (int, int) {
        (
            spec_scale(speed, spec_cos((self.angle + 90) % 360)),
            spec_scale(speed, spec_sin((self.angle + 90) % 360)),
        )
    }

    /// A pose from a position and a normalized angle.
    pub fn new(position: Vec2, angle: u32) -> (p: Pose)
        requires
            angle < 360,
        ensures
            p == (Pose { position, angle }),
            p.wf(),
    {
        Pose { position, angle }
    }

    /// Rotates the facing left by `degrees`, normalized; the position
    /// is untouched.
    pub fn turn_left(&mut self, degrees: u32)
        requires
            old(self).wf(),
            degrees < 360,
        ensures
            final(self).position == old(self).position,
            final(self).angle == Pose::spec_turn_left(old(self).angle as int, degrees as int),
            final(self).wf(),
    {
        self.angle = (self.angle + 360 - degrees) % 360;
    }

    /// Rotates the facing right by `degrees`, normalized; the position
    /// is untouched.
    pub fn turn_right(&mut self, degrees: u32)
        requires
            old(self).wf(),
            degrees < 360,
        ensures
            final(self).position == old(self).position,
            final(self).angle == Pose::spec_turn_right(old(self).angle as int, degrees as int),
            final(self).wf(),
    {
        self.angle = (self.angle + degrees) % 360;
    }

    /// Displacement of `speed` along the facing direction.
    pub fn move_forward(&self, speed: i64) -> (d: Vec2)
        requires
            self.wf(),
            0 <= speed <= MAX_SPEED,
        ensures
            d.x == self.spec_forward(speed as int).0,
            d.y == self.spec_forward(speed as int).1,
            -speed <= d.x <= speed,
            -speed <= d.y <= speed,
    {
        Vec2::new(scale_by_trig(speed, cos_fp(self.angle)), scale_by_trig(speed, sin_fp(self.angle)))
    }

    /// Displacement of `speed` opposite the facing direction.
    pub fn move_back(&self, speed: i64) -> (d: Vec2)
        requires
            self.wf(),
            0 <= speed <= MAX_SPEED,
        ensures
            d.x == self.spec_back(speed as int).0,
            d.y == self.spec_back(speed as int).1,
            -speed <= d.x <= speed,
            -speed <= d.y <= speed,
    {
        let f = self.move_forward(speed);
        Vec2::new(-f.x, -f.y)
    }

    /// Displacement of `speed` a quarter turn left of the facing.
    pub fn strafe_left(&self, speed: i64) -> (d: Vec2)
        requires
            self.wf(),
            0 <= speed <= MAX_SPEED,
        ensures
            d.x == self.spec_strafe_left(speed as int).0,
            d.y == self.spec_strafe_left(speed as int).1,
            -speed <= d.x <= speed,
            -speed <= d.y <= speed,
    {
        let a = (self.angle + 270) % 360;
        Vec2::new(scale_by_trig(speed, cos_fp(a)), scale_by_trig(speed, sin_fp(a)))
    }

    /// Displacement of `speed` a quarter turn right of the facing.
    pub fn strafe_right(&self, speed: i64) -> (d: Vec2)
        requires
            self.wf(),
            0 <= speed <= MAX_SPEED,
        ensures
            d.x == self.spec_strafe_right(speed as int).0,
            d.y == self.spec_strafe_right(speed as int).1,
            -speed <= d.x <= speed,
            -speed <= d.y <= speed,
    {
        let a = (self.angle + 90) % 360;
        Vec2::new(scale_by_trig(speed, cos_fp(a)), scale_by_trig(speed, sin_fp(a)))
    }
}

impl Default for Pose {
    /// The spawn pose: the origin, facing along the positive X axis.
    fn default() -> (p: Pose)
        ensures
            p.position == Vec2::spec_zero(),
            p.angle == 0,
            p.wf(),
    {
        Pose { position: Vec2 { x: 0, y: 0 }, angle: 0 }
    }
}

} // verus!
