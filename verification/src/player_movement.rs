//! The per-frame movement and collision resolver.
//!
//! Once per frame, given the current pose, the input snapshot and the
//! immutable room, the resolver rotates the facing unconditionally and
//! then either leaves the position unchanged or commits a validated
//! new position: the candidate move is rejected wholesale at the world
//! bounds, and clamped axis by axis against wall tiles using a single
//! radius-extended probe point computed before either axis test.

use vstd::arithmetic::div_mod::lemma_multiply_divide_le;
use vstd::math::abs;
use vstd::prelude::*;

use crate::config::Config;
use crate::input::{Binding, Input};
use crate::pose::Pose;
use crate::room::Room;
use crate::vec2::{FP_ONE, Vec2};

verus! {

/// Floor of the square root of `n`: the largest `r` with `r * r <= n`.
pub open spec fn spec_isqrt(n: int) -> int
    decreases n,
{
    if n <= 0 {
        0
    } else {
        let s = spec_isqrt(n - 1);
        if (s + 1) * (s + 1) <= n {
            s + 1
        } else {
            s
        }
    }
}

proof fn lemma_isqrt_bounds(n: int)
    requires
        n >= 0,
    ensures
        spec_isqrt(n) >= 0,
        spec_isqrt(n) * spec_isqrt(n) <= n,
        n < (spec_isqrt(n) + 1) * (spec_isqrt(n) + 1),
    decreases n,
{
    if n == 0 {
    } else {
        lemma_isqrt_bounds(n - 1);
        let s = spec_isqrt(n - 1);
        if (s + 1) * (s + 1) <= n {
            assert(n < (s + 2) * (s + 2)) by (nonlinear_arith)
                requires
                    n - 1 < (s + 1) * (s + 1),
                    s >= 0,
            ;
        }
    }
}

proof fn lemma_isqrt_unique(n: int, r: int)
    requires
        n >= 0,
        r >= 0,
        r * r <= n,
        n < (r + 1) * (r + 1),
    ensures
        r == spec_isqrt(n),
{
    lemma_isqrt_bounds(n);
    let s = spec_isqrt(n);
    if r < s {
        assert((r + 1) * (r + 1) <= s * s) by (nonlinear_arith)
            requires
                0 <= r,
                r + 1 <= s,
        ;
    } else if r > s {
        assert((s + 1) * (s + 1) <= r * r) by (nonlinear_arith)
            requires
                0 <= s,
                s + 1 <= r,
        ;
    }
}

/// Neither component of a vector exceeds the vector's length.
proof fn lemma_component_le_norm(x: int, y: int)
    ensures
        abs(x) <= spec_isqrt(x * x + y * y),
{
    let n = x * x + y * y;
    assert(x * x >= 0 && y * y >= 0 && abs(x) * abs(x) == x * x) by (nonlinear_arith);
    lemma_isqrt_bounds(n);
    let s = spec_isqrt(n);
    if abs(x) > s {
        assert((s + 1) * (s + 1) <= abs(x) * abs(x)) by (nonlinear_arith)
            requires
                0 <= s,
                s + 1 <= abs(x),
        ;
    }
}

/// Binary-search integer square root.
fn isqrt(n: u64) -> (r: u64)
    requires
        n < 0x4000000000000000,
    ensures
        r as int == spec_isqrt(n as int),
        r * r <= n,
        n < (r + 1) * (r + 1),
{
    let mut lo: u64 = 0;
    let mut hi: u64 = 0x80000000;
    proof {
        assert((0x80000000u64 as int) * (0x80000000u64 as int) > n as int);
    }
    while lo + 1 < hi
        invariant
            lo < hi,
            hi <= 0x80000000,
            lo * lo <= n,
            n < hi * hi,
        decreases hi - lo,
    {
        let mid = lo + (hi - lo) / 2;
        proof {
            assert(mid * mid <= 0x4000000000000000) by (nonlinear_arith)
                requires
                    mid <= 0x80000000u64,
            ;
        }
        if mid * mid <= n {
            lo = mid;
        } else {
            hi = mid;
        }
    }
    proof {
        lemma_isqrt_unique(n as int, lo as int);
    }
    lo
}

/// The displacement requested by the forward/back bindings: forward
/// wins when both are held; none held is the zero vector.
pub open spec fn spec_dx(pose: Pose, input: Input, config: Config) -> (int, int) {
    if input.move_forward {
        pose.spec_forward(config.walk_speed as int)
    } else if input.move_back {
        pose.spec_back(config.walk_speed as int)
    } else {
        (0, 0)
    }
}

/// The displacement requested by the strafe bindings: left wins when
/// both are held; none held is the zero vector.
pub open spec fn spec_dy(pose: Pose, input: Input, config: Config) -> (int, int) {
    if input.strafe_left {
        pose.spec_strafe_left(config.strafe_speed as int)
    } else if input.strafe_right {
        pose.spec_strafe_right(config.strafe_speed as int)
    } else {
        (0, 0)
    }
}

/// The whole translation intent of the frame: walk plus strafe.
pub open spec fn spec_dt(pose: Pose, input: Input, config: Config) -> (int, int) {
    (
        spec_dx(pose, input, config).0 + spec_dy(pose, input, config).0,
        spec_dx(pose, input, config).1 + spec_dy(pose, input, config).1,
    )
}

/// A fixed-point position lies inside the room's extent.
pub open spec fn spec_in_bounds(room: Room, x: int, y: int) -> bool {
    &&& 0 <= x < room.width * FP_ONE
    &&& 0 <= y < room.height * FP_ONE
}

/// The grid row or column under a fixed-point coordinate, clamped
/// into `0..extent` so a radius probe just past an edge still tests a
/// real tile.
pub open spec fn spec_tile_index(v: int, extent: int) -> int {
    if v < 0 {
        0
    } else if v / (FP_ONE as int) >= extent {
        extent - 1
    } else {
        v / (FP_ONE as int)
    }
}

/// The probe offset along one axis: `radius` scaled by this
/// component's share of the movement direction, rounded toward zero.
pub open spec fn spec_probe_offset(radius: int, comp: int, norm: int) -> int {
    if comp >= 0 {
        (radius * comp) / norm
    } else {
        -((radius * -comp) / norm)
    }
}

/// The length of a displacement, rounded down.
pub open spec fn spec_norm(dt: (int, int)) -> int {
    spec_isqrt(dt.0 * dt.0 + dt.1 * dt.1)
}

/// The radius-extended probe point: the candidate position pushed
/// `player_radius` further out along the movement direction. It is
/// computed once, before either axis test.
pub open spec fn spec_probe(pose: Pose, input: Input, config: Config) -> (int, int) {
    let dt = spec_dt(pose, input, config);
    let norm = spec_norm(dt);
    (
        pose.position.x + dt.0 + spec_probe_offset(config.player_radius as int, dt.0, norm),
        pose.position.y + dt.1 + spec_probe_offset(config.player_radius as int, dt.1, norm),
    )
}

/// What a frame's translation resolves to: `None` when no movement was
/// requested or the candidate leaves the world, otherwise the
/// candidate with each axis rolled back to the current coordinate when
/// the probe on that axis lands in a wall tile.
pub open spec fn spec_handle_movement(pose: Pose, input: Input, room: Room, config: Config)
    -> Option<(int, int)> {
    let from = pose.position;
    let dt = spec_dt(pose, input, config);
    if dt == (0int, 0int) {
        None
    } else {
        let tox = from.x + dt.0;
        let toy = from.y + dt.1;
        if !spec_in_bounds(room, tox, toy) {
            None
        } else {
            let buf = spec_probe(pose, input, config);
            let newx = if room.spec_tile(
                spec_tile_index(buf.0, room.width as int),
                spec_tile_index(from.y as int, room.height as int),
            ) != 0 {
                from.x as int
            } else {
                tox
            };
            let newy = if room.spec_tile(
                spec_tile_index(from.x as int, room.width as int),
                spec_tile_index(buf.1, room.height as int),
            ) != 0 {
                from.y as int
            } else {
                toy
            };
            Some((newx, newy))
        }
    }
}

/// The facing after a frame: a held `TurnLeft` turns left by the
/// configured speed, else a held `TurnRight` turns right, else the
/// facing keeps. Rotation reads no world state, so it can never be
/// blocked by a rejected translation.
pub open spec fn spec_rotation(angle: int, input: Input, config: Config) -> int {
    if input.turn_left {
        Pose::spec_turn_left(angle, config.turn_speed as int)
    } else if input.turn_right {
        Pose::spec_turn_right(angle, config.turn_speed as int)
    } else {
        angle
    }
}

/// Grid index of a fixed-point coordinate, clamped into the grid.
fn tile_index(v: i64, extent: u32) -> (t: u32)
    requires
        extent >= 1,
    ensures
        t as int == spec_tile_index(v as int, extent as int),
        t < extent,
{
    if v < 0 {
        0
    } else {
        let q = v / FP_ONE;
        if q >= extent as i64 {
            extent - 1
        } else {
            q as u32
        }
    }
}

/// `radius` scaled by `comp / norm`, rounded toward zero; never larger
/// in magnitude than `radius` itself.
fn probe_offset(radius: i64, comp: i64, norm: u64) -> (r: i64)
    requires
        0 <= radius <= FP_ONE,
        norm >= 1,
        abs(comp as int) <= norm,
        abs(comp as int) <= 0x200000,
    ensures
        r == spec_probe_offset(radius as int, comp as int, norm as int),
        -radius <= r <= radius,
{
    if comp >= 0 {
        proof {
            assert(radius * comp <= norm * radius && radius * comp <= 0x80000000000i64)
                by (nonlinear_arith)
                requires
                    0 <= radius <= 1024,
                    0 <= comp <= norm,
                    comp <= 0x200000,
            ;
        }
        let prod: u64 = (radius as u64) * (comp as u64);
        proof {
            lemma_multiply_divide_le(prod as int, norm as int, radius as int);
        }
        (prod / norm) as i64
    } else {
        proof {
            assert(radius * -comp <= norm * radius && radius * -comp <= 0x80000000000i64)
                by (nonlinear_arith)
                requires
                    0 <= radius <= 1024,
                    0 <= -comp <= norm,
                    -comp <= 0x200000,
            ;
        }
        let prod: u64 = (radius as u64) * ((-comp) as u64);
        proof {
            lemma_multiply_divide_le(prod as int, norm as int, radius as int);
        }
        -((prod / norm) as i64)
    }
}

/// Rotates the facing for one frame: `TurnLeft` wins over `TurnRight`;
/// the position is never touched here.
pub fn handle_rotation(player_pose: &mut Pose, input: &Input, config: &Config)
    requires
        old(player_pose).wf(),
        config.wf(),
    ensures
        final(player_pose).position == old(player_pose).position,
        final(player_pose).angle == spec_rotation(old(player_pose).angle as int, *input, *config),
        final(player_pose).wf(),
{
    if input.is_down(Binding::TurnLeft) {
        player_pose.turn_left(config.turn_speed);
    } else if input.is_down(Binding::TurnRight) {
        player_pose.turn_right(config.turn_speed);
    }
}

/// Resolves one frame of translation: `None` when no movement was
/// requested or the whole move was rejected at the world bounds,
/// otherwise the validated (possibly axis-clamped) new position,
/// exactly as `spec_handle_movement` lays it out. A returned position
/// is always inside the room.
pub fn handle_movement(player_pose: &Pose, input: &Input, room: &Room, config: &Config) -> (r:
    Option<Vec2>)
    requires
        player_pose.wf(),
        room.wf(),
        config.wf(),
        spec_in_bounds(*room, player_pose.position.x as int, player_pose.position.y as int),
    ensures
        ({
            let m = spec_handle_movement(*player_pose, *input, *room, *config);
            match r {
                Some(v) => m == Some((v.x as int, v.y as int)) && spec_in_bounds(
                    *room,
                    v.x as int,
                    v.y as int,
                ),
                None => m is None,
            }
        }),
{
    let dx = if input.is_down(Binding::MoveForward) {
        player_pose.move_forward(config.walk_speed)
    } else if input.is_down(Binding::MoveBack) {
        player_pose.move_back(config.walk_speed)
    } else {
        Vec2::zero()
    };
    let dy = if input.is_down(Binding::StrafeLeft) {
        player_pose.strafe_left(config.strafe_speed)
    } else if input.is_down(Binding::StrafeRight) {
        player_pose.strafe_right(config.strafe_speed)
    } else {
        Vec2::zero()
    };
    let dt = Vec2::new(dx.x + dy.x, dx.y + dy.y);

    // Did the player move?
    if dt.x == 0 && dt.y == 0 {
        return None;
    }
    let from = player_pose.position;
    let to_x = from.x + dt.x;
    let to_y = from.y + dt.y;

    // Disallow out of bounds
    let width = room.width();
    let height = room.height();
    if to_x < 0 || to_y < 0 || to_x >= (width as i64) * FP_ONE || to_y >= (height as i64)
        * FP_ONE {
        return None;
    }

    // Anticipate collision with player radius: one probe point, pushed
    // out by the radius along the movement direction.
    let ax: u64 = (if dt.x >= 0 {
        dt.x
    } else {
        -dt.x
    }) as u64;
    let ay: u64 = (if dt.y >= 0 {
        dt.y
    } else {
        -dt.y
    }) as u64;
    proof {
        assert(ax * ax == (dt.x as int) * (dt.x as int) && ay * ay == (dt.y as int) * (dt.y as int)
            && ax * ax + ay * ay < 0x4000000000000000) by (nonlinear_arith)
            requires
                ax == abs(dt.x as int),
                ay == abs(dt.y as int),
                ax <= 0x200000u64,
                ay <= 0x200000u64,
        ;
        lemma_component_le_norm(dt.x as int, dt.y as int);
        lemma_component_le_norm(dt.y as int, dt.x as int);
    }
    let norm = isqrt(ax * ax + ay * ay);
    proof {
        if norm == 0 {
            assert(ax == 0 && ay == 0) by (nonlinear_arith)
                requires
                    ax * ax + ay * ay == 0,
            ;
        }
    }
    let off_x = probe_offset(config.player_radius, dt.x, norm);
    let off_y = probe_offset(config.player_radius, dt.y, norm);
    let buf_x = to_x + off_x;
    let buf_y = to_y + off_y;

    // Rollback x or y on collision with walls
    let fx_tile = tile_index(from.x, width);
    let fy_tile = tile_index(from.y, height);
    let bx_tile = tile_index(buf_x, width);
    let by_tile = tile_index(buf_y, height);
    let mut new_x = to_x;
    let mut new_y = to_y;
    if room.get_tile_xy(bx_tile, fy_tile) != 0 {
        new_x = from.x;
    }
    if room.get_tile_xy(fx_tile, by_tile) != 0 {
        new_y = from.y;
    }
    Some(Vec2::new(new_x, new_y))
}

/// The per-frame player system: rotation first (unconditional), then
/// the translation, committed wholesale when the resolver accepts it.
pub struct PlayerInputSystem;

impl PlayerInputSystem {
    /// Runs one frame. The facing is always updated to the rotation
    /// outcome; the position becomes the resolved translation when
    /// there is one (computed against the already-rotated facing) and
    /// keeps its value otherwise. The pose never leaves the room.
    pub fn run(&self, player_pose: &mut Pose, input: &Input, room: &Room, config: &Config)
        requires
            old(player_pose).wf(),
            room.wf(),
            config.wf(),
            spec_in_bounds(
                *room,
                old(player_pose).position.x as int,
                old(player_pose).position.y as int,
            ),
        ensures
            final(player_pose).wf(),
            final(player_pose).angle == spec_rotation(
                old(player_pose).angle as int,
                *input,
                *config,
            ),
            ({
                let rotated = Pose {
                    position: old(player_pose).position,
                    angle: final(player_pose).angle,
                };
                match spec_handle_movement(rotated, *input, *room, *config) {
                    Some(p) => (
                        final(player_pose).position.x as int,
                        final(player_pose).position.y as int,
                    ) == p,
                    None => final(player_pose).position == old(player_pose).position,
                }
            }),
            spec_in_bounds(
                *room,
                final(player_pose).position.x as int,
                final(player_pose).position.y as int,
            ),
    {
        handle_rotation(player_pose, input, config);
        let move_to = handle_movement(player_pose, input, room, config);
        if let Some(to) = move_to {
            player_pose.position = to;
        }
    }
}

/// With no binding held, a frame changes neither the facing nor the
/// position: the rotation outcome is the old angle and the translation
/// resolves to "no movement requested".
pub proof fn lemma_noop_input(pose: Pose, input: Input, room: Room, config: Config)
    requires
        pose.wf(),
        config.wf(),
        input.spec_none_down(),
    ensures
        spec_rotation(pose.angle as int, input, config) == pose.angle,
        spec_handle_movement(pose, input, room, config) is None,
{
    assert(!input.spec_is_down(Binding::MoveForward));
    assert(!input.spec_is_down(Binding::MoveBack));
    assert(!input.spec_is_down(Binding::StrafeLeft));
    assert(!input.spec_is_down(Binding::StrafeRight));
    assert(!input.spec_is_down(Binding::TurnLeft));
    assert(!input.spec_is_down(Binding::TurnRight));
}

/// A candidate move that would leave the world is rejected wholesale,
/// wall or no wall: the frame's translation resolves to no change.
pub proof fn lemma_world_bounds_rejection(pose: Pose, input: Input, room: Room, config: Config)
    requires
        pose.wf(),
        config.wf(),
        !spec_in_bounds(
            room,
            pose.position.x + spec_dt(pose, input, config).0,
            pose.position.y + spec_dt(pose, input, config).1,
        ),
    ensures
        spec_handle_movement(pose, input, room, config) is None,
{
}

/// Axis-separated sliding: when the in-bounds candidate's probe lands
/// in a wall on the X axis only, just the X component is rolled back
/// and the Y movement proceeds.
pub proof fn lemma_axis_sliding(pose: Pose, input: Input, room: Room, config: Config)
    requires
        pose.wf(),
        config.wf(),
        spec_dt(pose, input, config) != (0int, 0int),
        spec_in_bounds(
            room,
            pose.position.x + spec_dt(pose, input, config).0,
            pose.position.y + spec_dt(pose, input, config).1,
        ),
        room.spec_tile(
            spec_tile_index(spec_probe(pose, input, config).0, room.width as int),
            spec_tile_index(pose.position.y as int, room.height as int),
        ) != 0,
        room.spec_tile(
            spec_tile_index(pose.position.x as int, room.width as int),
            spec_tile_index(spec_probe(pose, input, config).1, room.height as int),
        ) == 0,
    ensures
        spec_handle_movement(pose, input, room, config) == Some(
            (pose.position.x as int, pose.position.y + spec_dt(pose, input, config).1),
        ),
{
}

/// Rotation is independent of translation: a held `TurnLeft` always
/// turns the facing (the outcome reads no world state, so no rejected
/// move can block it), and with a nonzero configured turn speed the
/// facing really changes.
pub proof fn lemma_rotation_independence(pose: Pose, input: Input, config: Config)
    requires
        pose.wf(),
        config.wf(),
        input.spec_is_down(Binding::TurnLeft),
    ensures
        spec_rotation(pose.angle as int, input, config) == Pose::spec_turn_left(
            pose.angle as int,
            config.turn_speed as int,
        ),
        spec_rotation(pose.angle as int, input, config) != pose.angle,
{
}

} // verus!
