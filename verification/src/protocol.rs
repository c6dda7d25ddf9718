//! The wire protocol: the closed set of messages client and server exchange,
//! and the channel each travels on.
//!
//! Geometry travels as fixed-point integers (see [`crate::fixed`]); a body's
//! orientation is its yaw (heading) angle in milliradians, since the
//! simulation only ever rotates about the vertical axis and the camera pitch
//! never reaches the simulated body.

use vstd::prelude::*;
use crate::fixed::FIX_LIMIT;

verus! {

/// Protocol identity carried by the connection handshake.
pub const PROTOCOL_ID: u64 = 7;

/// Largest angle (milliradians) a wire message may carry; keeps trigonometry
/// far from `i64` overflow.
pub const ANGLE_LIMIT: i64 = 1_000_000_000;

/// A 2-D fixed-point vector; for inputs, `x` is the sideways axis and `y`
/// the forward axis of the player's own frame.
#[derive(Clone, Copy, Debug, PartialEq, Eq, Structural)]
pub struct Vec2Fix {
    pub x: i64,
    pub y: i64,
}

/// A 3-D fixed-point vector in world space (`y` is up).
#[derive(Clone, Copy, Debug, PartialEq, Eq, Structural)]
pub struct Vec3Fix {
    pub x: i64,
    pub y: i64,
    pub z: i64,
}

impl Vec3Fix {
    /// All components inside the world bound.
    pub open spec fn in_world(self) -> bool {
        &&& -FIX_LIMIT <= self.x <= FIX_LIMIT
        &&& -FIX_LIMIT <= self.y <= FIX_LIMIT
        &&& -FIX_LIMIT <= self.z <= FIX_LIMIT
    }

    /// Runtime check of [`Vec3Fix::in_world`], for values read off the wire.
    pub fn check_in_world(&self) -> (r: bool)
        ensures
            r == self.in_world(),
    {
        -FIX_LIMIT <= self.x && self.x <= FIX_LIMIT && -FIX_LIMIT <= self.y && self.y
            <= FIX_LIMIT && -FIX_LIMIT <= self.z && self.z <= FIX_LIMIT
    }
}

/// One frame of player intent, client to server. Immutable once sent.
#[derive(Clone, Copy, Debug, PartialEq, Eq, Structural)]
pub struct PlayerInput {
    /// Requested horizontal motion; magnitude at most one unit, normalized
    /// by the sender when a diagonal was requested.
    pub move_direction: Vec2Fix,
    /// Jump requested this frame.
    pub jump: bool,
    /// Heading, milliradians.
    pub yaw: i64,
    /// Camera pitch, milliradians; never applied to the simulated body.
    pub pitch: i64,
    /// Client-assigned, strictly increasing per session.
    pub sequence_number: u32,
}

impl PlayerInput {
    /// What the simulation demands of an input: bounded move vector of at
    /// most unit magnitude, bounded angles.
    pub open spec fn wf(self) -> bool {
        &&& -1000 <= self.move_direction.x <= 1000
        &&& -1000 <= self.move_direction.y <= 1000
        &&& self.move_direction.x * self.move_direction.x + self.move_direction.y
            * self.move_direction.y <= 1_000_000
        &&& -ANGLE_LIMIT <= self.yaw <= ANGLE_LIMIT
        &&& -ANGLE_LIMIT <= self.pitch <= ANGLE_LIMIT
    }

    /// Runtime check of [`PlayerInput::wf`]; the server drops inputs that
    /// fail it rather than simulating on them.
    pub fn check_wf(&self) -> (r: bool)
        ensures
            r == self.wf(),
    {
        let mx = self.move_direction.x;
        let my = self.move_direction.y;
        if -1000 <= mx && mx <= 1000 && -1000 <= my && my <= 1000 {
            proof {
                assert(-1_000_000 <= mx * mx <= 1_000_000 && -1_000_000 <= my * my
                    <= 1_000_000) by (nonlinear_arith)
                    requires
                        -1000 <= mx <= 1000,
                        -1000 <= my <= 1000,
                ;
            }
            mx * mx + my * my <= 1_000_000 && -ANGLE_LIMIT <= self.yaw && self.yaw
                <= ANGLE_LIMIT && -ANGLE_LIMIT <= self.pitch && self.pitch <= ANGLE_LIMIT
        } else {
            false
        }
    }
}

/// A player's authoritative kinematic state, server to client.
#[derive(Clone, Copy, Debug, PartialEq, Eq, Structural)]
pub struct PlayerState {
    pub entity_id: u64,
    pub position: Vec3Fix,
    pub velocity: Vec3Fix,
    /// Heading, milliradians.
    pub yaw: i64,
    /// The last input sequence number the server has processed for this
    /// player; the client reconciles up to it.
    pub sequence_number: u32,
}

/// The weapons a player can fire.
#[derive(Clone, Copy, Debug, PartialEq, Eq, Structural)]
pub enum WeaponType {
    Pistol,
    Rifle,
    Shotgun,
}

/// Every message the protocol admits.
#[derive(Clone, Copy, Debug, PartialEq, Eq, Structural)]
pub enum NetworkMessage {
    /// Client to server: one frame of intent.
    PlayerInput(PlayerInput),
    /// Server to client: a simulated player's state, once per tick.
    PlayerStateUpdate(PlayerState),
    /// Server to client: a non-player physics body's transform.
    RigidBodyUpdate { entity_id: u64, position: Vec3Fix, yaw: i64 },
    /// Server to all: a new player joined.
    PlayerConnected { entity_id: u64, client_id: u64 },
    /// Server to all: a player left.
    PlayerDisconnected { entity_id: u64 },
    /// Client to server: a shot was fired.
    PlayerShoot { origin: Vec3Fix, direction: Vec3Fix, weapon_type: WeaponType },
    /// Server to all: a shot landed (cosmetic feedback).
    ProjectileHit { position: Vec3Fix, damage: i64 },
    /// Server to clients: a player's health changed.
    HealthUpdate { entity_id: u64, current_health: i64, max_health: i64 },
    /// Server to all: a player's health reached zero.
    PlayerDied { entity_id: u64, killer_id: Option<u64> },
    /// Server to all: a dead player is back at the spawn point.
    PlayerRespawn { entity_id: u64, position: Vec3Fix },
}

/// The two logical channels of a connection.
#[derive(Clone, Copy, Debug, PartialEq, Eq, Structural)]
pub enum Channel {
    /// Channel 0: ordered, reliable; inputs, state, membership, health.
    Reliable,
    /// Channel 1: fire-and-forget; shoot events, where a loss is acceptable.
    Unreliable,
}

impl Channel {
    /// The channel's wire number.
    pub open spec fn spec_id(self) -> u8 {
        match self {
            Channel::Reliable => 0,
            Channel::Unreliable => 1,
        }
    }

    /// The channel's wire number: 0 reliable-ordered, 1 unreliable.
    pub fn id(self) -> (r: u8)
        ensures
            r == self.spec_id(),
    {
        match self {
            Channel::Reliable => 0,
            Channel::Unreliable => 1,
        }
    }
}

/// The channel a message variant is fixed to.
pub open spec fn spec_channel_of(m: NetworkMessage) -> Channel {
    match m {
        NetworkMessage::PlayerShoot { .. } => Channel::Unreliable,
        _ => Channel::Reliable,
    }
}

/// Which channel carries a message: only shoot events ride the unreliable
/// channel; everything else needs channel 0's ordering.
pub fn channel_of(m: &NetworkMessage) -> (r: Channel)
    ensures
        r == spec_channel_of(*m),
{
    match m {
        NetworkMessage::PlayerShoot { .. } => Channel::Unreliable,
        _ => Channel::Reliable,
    }
}

} // verus!
