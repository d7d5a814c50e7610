//! Movement configuration: the speed and size constants the resolver
//! reads each frame.

use vstd::prelude::*;

use crate::pose::MAX_SPEED;
use crate::vec2::FP_ONE;

verus! {

/// Player radius, turn speed and the two movement speeds; held as
/// values so a host can configure them once at startup.
#[derive(Clone, Copy, PartialEq, Eq, Structural, Debug)]
pub struct Config {
    /// Collision probe radius, fixed-point tile units.
    pub player_radius: i64,
    /// Degrees turned per frame while a turn binding is held.
    pub turn_speed: u32,
    /// Forward/back speed, fixed-point tile units per frame.
    pub walk_speed: i64,
    /// Strafe speed, fixed-point tile units per frame.
    pub strafe_speed: i64,
}

impl Config {
    /// The bounds the resolver's arithmetic relies on: the radius is
    /// at most one tile, the turn is a normalized nonzero angle, and
    /// speeds are nonnegative and bounded.
    pub open spec fn wf(&self) -> bool {
        &&& 0 <= self.player_radius <= FP_ONE
        &&& 0 < self.turn_speed < 360
        &&& 0 <= self.walk_speed <= MAX_SPEED
        &&& 0 <= self.strafe_speed <= MAX_SPEED
    }
}

impl Default for Config {
    /// A playable default: a quarter-tile radius, five degrees per
    /// frame, an eighth of a tile walked and a sixteenth strafed.
    fn default() -> (c: Config)
        ensures
            c.player_radius == 256,
            c.turn_speed == 5,
            c.walk_speed == 128,
            c.strafe_speed == 64,
            c.wf(),
    {
        Config { player_radius: 256, turn_speed: 5, walk_speed: 128, strafe_speed: 64 }
    }
}

} // verus!
