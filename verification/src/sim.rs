//! The kinematic step: one entity, one input, one time delta.
//!
//! [`simulation_step`] is the one function both sides run — the server for
//! authority, the client for prediction — and its contract pins the result
//! to the mathematical [`spec_step`] exactly, so the two sides cannot
//! disagree on the same data: the arithmetic is integer-only and therefore
//! bit-identical on every machine.
//!
//! [`rigid_body_step`] advances the non-player physics bodies the server
//! owns (gravity, ground bounce, settle).

use vstd::prelude::*;
use crate::fixed::{
    FIX_LIMIT, lemma_tdiv_bound, spec_clamp, spec_cos, spec_fix_mul, spec_norm2_x, spec_norm2_z,
    spec_sin, tdiv, clamp_fix, cos_fix, fix_mul, normalize2, sin_fix,
};
use crate::protocol::{ANGLE_LIMIT, PlayerInput, Vec3Fix};

verus! {

/// A standing player's height, fixed-point.
pub const PLAYER_HEIGHT: i64 = 1800;

/// A player's radius, fixed-point.
pub const PLAYER_RADIUS: i64 = 500;

/// The height of a grounded player's centre: half the standing height.
pub const GROUND_HEIGHT: i64 = 900;

/// Time deltas are milliseconds, clamped to this bound: a longer gap is a
/// stall, not a step to integrate in one piece.
pub const DT_MAX_MS: u32 = 1000;

/// Largest per-controller speed or force, and largest gravity magnitude.
pub const CONTROL_LIMIT: i64 = 1_000_000;

/// The per-controller movement constants, identical on client and server.
#[derive(Clone, Copy, Debug, PartialEq, Eq, Structural)]
pub struct PlayerController {
    /// Horizontal speed while moving, fixed-point units per second.
    pub move_speed: i64,
    /// Vertical velocity assigned on jump, fixed-point units per second.
    pub jump_force: i64,
    /// Vertical acceleration, fixed-point units per second squared;
    /// negative.
    pub gravity: i64,
}

impl PlayerController {
    /// Bounded controller constants.
    pub open spec fn wf(self) -> bool {
        &&& 0 <= self.move_speed <= CONTROL_LIMIT
        &&& 0 <= self.jump_force <= CONTROL_LIMIT
        &&& -CONTROL_LIMIT <= self.gravity <= 0
    }

    /// The standard controller: 5 units/s of movement, a 7.5 units/s jump,
    /// 18 units/s^2 of gravity.
    pub fn standard() -> (r: PlayerController)
        ensures
            r == (PlayerController { move_speed: 5000, jump_force: 7500, gravity: -18000i64 }),
            r.wf(),
    {
        PlayerController { move_speed: 5000, jump_force: 7500, gravity: -18000 }
    }
}

impl Default for PlayerController {
    /// The standard controller.
    fn default() -> (r: PlayerController)
        ensures
            r == (PlayerController { move_speed: 5000, jump_force: 7500, gravity: -18000i64 }),
            r.wf(),
    {
        PlayerController { move_speed: 5000, jump_force: 7500, gravity: -18000 }
    }
}

/// One entity's kinematic state. The server's copy is the authority; a
/// client's copy of its own player is a provisional prediction.
#[derive(Clone, Copy, Debug, PartialEq, Eq, Structural)]
pub struct BodyState {
    pub position: Vec3Fix,
    pub velocity: Vec3Fix,
    /// Heading, milliradians; the body's whole orientation.
    pub yaw: i64,
    /// Standing on the ground as of the last step.
    pub grounded: bool,
}

impl BodyState {
    /// Inside the world bounds.
    pub open spec fn wf(self) -> bool {
        &&& self.position.in_world()
        &&& self.velocity.in_world()
        &&& -ANGLE_LIMIT <= self.yaw <= ANGLE_LIMIT
    }
}

/// The clamped time delta, in milliseconds.
pub open spec fn spec_dt(dt_ms: u32) -> int {
    if dt_ms > 1000 {
        1000
    } else {
        dt_ms as int
    }
}

/// What one simulation step computes, exactly:
/// 1. the heading becomes the input's yaw;
/// 2. forward and right unit vectors come from the heading;
/// 3. the horizontal move vector is the normalized combination of forward
///    and sideways intent (a zero intent moves nothing);
/// 4. horizontal velocity is the move vector at the controller's speed;
/// 5. a jump while grounded assigns the jump velocity outright;
/// 6. gravity integrates into vertical velocity;
/// 7. velocity integrates into position;
/// 8. at or below standing height the body is clamped to the ground, its
///    fall stopped, and marked grounded.
pub open spec fn spec_step(
    b: BodyState,
    ctrl: PlayerController,
    input: PlayerInput,
    dt_ms: u32,
) -> BodyState {
    let dt = spec_dt(dt_ms);
    let yaw = input.yaw;
    let fwd_x = -spec_sin(yaw as int);
    let fwd_z = -spec_cos(yaw as int);
    let right_x = spec_cos(yaw as int);
    let right_z = -spec_sin(yaw as int);
    let ux = spec_fix_mul(fwd_x, input.move_direction.y as int) + spec_fix_mul(
        right_x,
        input.move_direction.x as int,
    );
    let uz = spec_fix_mul(fwd_z, input.move_direction.y as int) + spec_fix_mul(
        right_z,
        input.move_direction.x as int,
    );
    let hx = spec_norm2_x(ux, uz);
    let hz = spec_norm2_z(ux, uz);
    let vx = spec_fix_mul(hx, ctrl.move_speed as int);
    let vz = spec_fix_mul(hz, ctrl.move_speed as int);
    let vy0 = if input.jump && b.grounded {
        ctrl.jump_force as int
    } else {
        b.velocity.y as int
    };
    let vy = spec_clamp(vy0 + spec_fix_mul(ctrl.gravity as int, dt));
    let px = spec_clamp(b.position.x + spec_fix_mul(vx, dt));
    let py = spec_clamp(b.position.y + spec_fix_mul(vy, dt));
    let pz = spec_clamp(b.position.z + spec_fix_mul(vz, dt));
    if py <= GROUND_HEIGHT {
        BodyState {
            position: Vec3Fix { x: px as i64, y: GROUND_HEIGHT, z: pz as i64 },
            velocity: Vec3Fix { x: vx as i64, y: 0, z: vz as i64 },
            yaw,
            grounded: true,
        }
    } else {
        BodyState {
            position: Vec3Fix { x: px as i64, y: py as i64, z: pz as i64 },
            velocity: Vec3Fix { x: vx as i64, y: vy as i64, z: vz as i64 },
            yaw,
            grounded: false,
        }
    }
}

/// Advance one entity by one input and one time delta.
///
/// Returns exactly [`spec_step`]: the same starting state, input and delta
/// give the same result on any machine, any run — the determinism that
/// prediction and authority must share.
pub fn simulation_step(b: &BodyState, ctrl: &PlayerController, input: &PlayerInput, dt_ms: u32) -> (r:
    BodyState)
    requires
        b.wf(),
        ctrl.wf(),
        input.wf(),
    ensures
        r == spec_step(*b, *ctrl, *input, dt_ms),
        r.wf(),
{
    let dt: i64 = if dt_ms > DT_MAX_MS {
        1000
    } else {
        dt_ms as i64
    };
    let yaw = input.yaw;
    let s = sin_fix(yaw);
    let c = cos_fix(yaw);
    let fwd_x = -s;
    let fwd_z = -c;
    let right_x = c;
    let right_z = -s;
    let mx = input.move_direction.x;
    let my = input.move_direction.y;
    proof {
        assert(-1_000_000 <= fwd_x * my <= 1_000_000 && -1_000_000 <= right_x * mx <= 1_000_000
            && -1_000_000 <= fwd_z * my <= 1_000_000 && -1_000_000 <= right_z * mx
            <= 1_000_000) by (nonlinear_arith)
            requires
                -1000 <= fwd_x <= 1000,
                -1000 <= fwd_z <= 1000,
                -1000 <= right_x <= 1000,
                -1000 <= right_z <= 1000,
                -1000 <= mx <= 1000,
                -1000 <= my <= 1000,
        ;
        lemma_tdiv_bound(fwd_x * my, 1000, 1000);
        lemma_tdiv_bound(right_x * mx, 1000, 1000);
        lemma_tdiv_bound(fwd_z * my, 1000, 1000);
        lemma_tdiv_bound(right_z * mx, 1000, 1000);
    }
    let ux = fix_mul(fwd_x, my) + fix_mul(right_x, mx);
    let uz = fix_mul(fwd_z, my) + fix_mul(right_z, mx);
    let (hx, hz) = normalize2(ux, uz);
    proof {
        assert(-1_000_000_000 <= hx * ctrl.move_speed <= 1_000_000_000 && -1_000_000_000 <= hz
            * ctrl.move_speed <= 1_000_000_000) by (nonlinear_arith)
            requires
                -1000 <= hx <= 1000,
                -1000 <= hz <= 1000,
                0 <= ctrl.move_speed <= 1_000_000,
        ;
        lemma_tdiv_bound(hx * ctrl.move_speed, 1000, CONTROL_LIMIT as int);
        lemma_tdiv_bound(hz * ctrl.move_speed, 1000, CONTROL_LIMIT as int);
    }
    let vx = fix_mul(hx, ctrl.move_speed);
    let vz = fix_mul(hz, ctrl.move_speed);
    let vy0: i64 = if input.jump && b.grounded {
        ctrl.jump_force
    } else {
        b.velocity.y
    };
    proof {
        assert(-1_000_000_000 <= ctrl.gravity * dt <= 1_000_000_000) by (nonlinear_arith)
            requires
                -1_000_000 <= ctrl.gravity <= 0,
                0 <= dt <= 1000,
        ;
        lemma_tdiv_bound(ctrl.gravity * dt, 1000, CONTROL_LIMIT as int);
    }
    let vy = clamp_fix(vy0 + fix_mul(ctrl.gravity, dt));
    proof {
        assert(-1_000_000_000_000 <= vx * dt <= 1_000_000_000_000 && -1_000_000_000_000 <= vy * dt
            <= 1_000_000_000_000 && -1_000_000_000_000 <= vz * dt
            <= 1_000_000_000_000) by (nonlinear_arith)
            requires
                -1_000_000_000 <= vx <= 1_000_000_000,
                -1_000_000_000 <= vy <= 1_000_000_000,
                -1_000_000_000 <= vz <= 1_000_000_000,
                0 <= dt <= 1000,
        ;
        lemma_tdiv_bound(vx * dt, 1000, FIX_LIMIT as int);
        lemma_tdiv_bound(vy * dt, 1000, FIX_LIMIT as int);
        lemma_tdiv_bound(vz * dt, 1000, FIX_LIMIT as int);
    }
    let px = clamp_fix(b.position.x + fix_mul(vx, dt));
    let py = clamp_fix(b.position.y + fix_mul(vy, dt));
    let pz = clamp_fix(b.position.z + fix_mul(vz, dt));
    if py <= GROUND_HEIGHT {
        BodyState {
            position: Vec3Fix { x: px, y: GROUND_HEIGHT, z: pz },
            velocity: Vec3Fix { x: vx, y: 0, z: vz },
            yaw,
            grounded: true,
        }
    } else {
        BodyState {
            position: Vec3Fix { x: px, y: py, z: pz },
            velocity: Vec3Fix { x: vx, y: vy, z: vz },
            yaw,
            grounded: false,
        }
    }
}

/// The simulation step is a pure function of state, controller, input and
/// delta: run twice from equal starting points it produces bit-identical
/// results — what lets a client's prediction agree with the server's
/// authority.
pub proof fn lemma_step_deterministic(
    b1: BodyState,
    c1: PlayerController,
    i1: PlayerInput,
    d1: u32,
    b2: BodyState,
    c2: PlayerController,
    i2: PlayerInput,
    d2: u32,
)
    requires
        b1 == b2,
        c1 == c2,
        i1 == i2,
        d1 == d2,
    ensures
        spec_step(b1, c1, i1, d1) == spec_step(b2, c2, i2, d2),
{
}

/// Stepping an already-grounded body under zero input, no jump and no
/// accumulated fall leaves its height exactly where it was: the ground
/// clamp is idempotent.
pub proof fn lemma_ground_clamp_idempotent(
    b: BodyState,
    ctrl: PlayerController,
    input: PlayerInput,
    dt_ms: u32,
)
    requires
        b.wf(),
        ctrl.wf(),
        input.wf(),
        b.grounded,
        b.position.y == GROUND_HEIGHT,
        b.velocity.y == 0,
        input.move_direction.x == 0,
        input.move_direction.y == 0,
        !input.jump,
    ensures
        spec_step(b, ctrl, input, dt_ms).position.y == b.position.y,
        spec_step(b, ctrl, input, dt_ms).grounded,
        spec_step(b, ctrl, input, dt_ms).velocity.y == 0,
{
    let dt = spec_dt(dt_ms);
    let g = ctrl.gravity as int;
    assert(-1_000_000_000 <= g * dt <= 0) by (nonlinear_arith)
        requires
            -1_000_000 <= g <= 0,
            0 <= dt <= 1000,
    ;
    assert(-(1_000_000 * 1000) <= g * dt <= 1_000_000 * 1000);
    lemma_tdiv_bound(g * dt, 1000, 1_000_000);
    assert(tdiv(g * dt, 1000) <= 0);
    let vy = spec_clamp(0 + spec_fix_mul(g, dt));
    assert(-1_000_000 <= vy <= 0);
    assert(-1_000_000_000 <= vy * dt <= 0) by (nonlinear_arith)
        requires
            -1_000_000 <= vy <= 0,
            0 <= dt <= 1000,
    ;
    lemma_tdiv_bound(vy * dt, 1000, 1_000_000);
    assert(spec_fix_mul(vy, dt) <= 0);
    let py = spec_clamp(GROUND_HEIGHT + spec_fix_mul(vy, dt));
    assert(py <= GROUND_HEIGHT);
}

/// A non-player physics body the server simulates: it falls, bounces off
/// the ground with some restitution, and settles when slow.
#[derive(Clone, Copy, Debug, PartialEq, Eq, Structural)]
pub struct RigidBodyState {
    pub position: Vec3Fix,
    pub velocity: Vec3Fix,
    /// Vertical acceleration, fixed-point units per second squared;
    /// negative.
    pub gravity: i64,
    /// Fraction of vertical speed kept (reversed) on a bounce, fixed-point
    /// thousandths.
    pub bounciness: i64,
    /// The height of the body's centre when resting on the ground.
    pub ground_level: i64,
}

/// Vertical speeds below this settle to zero on a bounce.
pub const SETTLE_EPSILON: i64 = 100;

impl RigidBodyState {
    /// Bounded state and parameters.
    pub open spec fn wf(self) -> bool {
        &&& self.position.in_world()
        &&& self.velocity.in_world()
        &&& -CONTROL_LIMIT <= self.gravity <= 0
        &&& 0 <= self.bounciness <= 1000
        &&& -FIX_LIMIT <= self.ground_level <= FIX_LIMIT
    }
}

/// What one rigid-body step computes: integrate gravity and velocity; on
/// ground contact, clamp to the ground, reflect the vertical speed scaled
/// by the restitution, and settle to zero below [`SETTLE_EPSILON`].
pub open spec fn spec_body_step(b: RigidBodyState, dt_ms: u32) -> RigidBodyState {
    let dt = spec_dt(dt_ms);
    let vy = spec_clamp(b.velocity.y + spec_fix_mul(b.gravity as int, dt));
    let px = spec_clamp(b.position.x + spec_fix_mul(b.velocity.x as int, dt));
    let py = spec_clamp(b.position.y + spec_fix_mul(vy, dt));
    let pz = spec_clamp(b.position.z + spec_fix_mul(b.velocity.z as int, dt));
    if py <= b.ground_level {
        let bounced = spec_clamp(-spec_fix_mul(vy, b.bounciness as int));
        let settled = if -SETTLE_EPSILON < bounced < SETTLE_EPSILON {
            0
        } else {
            bounced
        };
        RigidBodyState {
            position: Vec3Fix { x: px as i64, y: b.ground_level, z: pz as i64 },
            velocity: Vec3Fix { x: b.velocity.x, y: settled as i64, z: b.velocity.z },
            ..b
        }
    } else {
        RigidBodyState {
            position: Vec3Fix { x: px as i64, y: py as i64, z: pz as i64 },
            velocity: Vec3Fix { x: b.velocity.x, y: vy as i64, z: b.velocity.z },
            ..b
        }
    }
}

/// Advance a non-player physics body by one time delta; returns exactly
/// [`spec_body_step`].
pub fn rigid_body_step(b: &RigidBodyState, dt_ms: u32) -> (r: RigidBodyState)
    requires
        b.wf(),
    ensures
        r == spec_body_step(*b, dt_ms),
        r.wf(),
{
    let dt: i64 = if dt_ms > DT_MAX_MS {
        1000
    } else {
        dt_ms as i64
    };
    proof {
        assert(-1_000_000_000 <= b.gravity * dt <= 0) by (nonlinear_arith)
            requires
                -1_000_000 <= b.gravity <= 0,
                0 <= dt <= 1000,
        ;
        lemma_tdiv_bound(b.gravity * dt, 1000, CONTROL_LIMIT as int);
    }
    let vy = clamp_fix(b.velocity.y + fix_mul(b.gravity, dt));
    proof {
        assert(-1_000_000_000_000 <= b.velocity.x * dt <= 1_000_000_000_000
            && -1_000_000_000_000 <= vy * dt <= 1_000_000_000_000 && -1_000_000_000_000
            <= b.velocity.z * dt <= 1_000_000_000_000) by (nonlinear_arith)
            requires
                -1_000_000_000 <= b.velocity.x <= 1_000_000_000,
                -1_000_000_000 <= vy <= 1_000_000_000,
                -1_000_000_000 <= b.velocity.z <= 1_000_000_000,
                0 <= dt <= 1000,
        ;
        lemma_tdiv_bound(b.velocity.x * dt, 1000, FIX_LIMIT as int);
        lemma_tdiv_bound(vy * dt, 1000, FIX_LIMIT as int);
        lemma_tdiv_bound(b.velocity.z * dt, 1000, FIX_LIMIT as int);
    }
    let px = clamp_fix(b.position.x + fix_mul(b.velocity.x, dt));
    let py = clamp_fix(b.position.y + fix_mul(vy, dt));
    let pz = clamp_fix(b.position.z + fix_mul(b.velocity.z, dt));
    if py <= b.ground_level {
        proof {
            assert(-1_000_000_000_000 <= vy * b.bounciness
                <= 1_000_000_000_000) by (nonlinear_arith)
                requires
                    -1_000_000_000 <= vy <= 1_000_000_000,
                    0 <= b.bounciness <= 1000,
            ;
            lemma_tdiv_bound(vy * b.bounciness, 1000, FIX_LIMIT as int);
        }
        let bounced = clamp_fix(-fix_mul(vy, b.bounciness));
        let settled: i64 = if -SETTLE_EPSILON < bounced && bounced < SETTLE_EPSILON {
            0
        } else {
            bounced
        };
        RigidBodyState {
            position: Vec3Fix { x: px, y: b.ground_level, z: pz },
            velocity: Vec3Fix { x: b.velocity.x, y: settled, z: b.velocity.z },
            ..*b
        }
    } else {
        RigidBodyState {
            position: Vec3Fix { x: px, y: py, z: pz },
            velocity: Vec3Fix { x: b.velocity.x, y: vy, z: b.velocity.z },
            ..*b
        }
    }
}

} // verus!
