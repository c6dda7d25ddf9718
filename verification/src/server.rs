//! The authoritative server simulation.
//!
//! The server owns the one true [`BodyState`] per entity. Each tick it
//! drains inputs (channel 0) and shots (channel 1), advances players and
//! physics bodies, resolves deaths, and broadcasts the resulting state;
//! the transport and the scheduling loop live outside, feeding these
//! functions and carrying their outbound messages.
//!
//! A malformed or unexpected message never stops the loop: every handler
//! here is total, leaving the world unchanged when its bytes do not decode
//! or its client is unknown.

use vstd::prelude::*;
use crate::codec::{decode_message, spec_encode};
use crate::combat::{
    check_dir_wf, hit_scan, spec_dir_wf, spec_hit_candidate, spec_ray_dot, PlayerHealth, Target,
    WeaponStats,
};
use crate::protocol::{NetworkMessage, PlayerInput, PlayerState, Vec3Fix, WeaponType};
use crate::sim::{
    rigid_body_step, simulation_step, spec_body_step, spec_step, BodyState, PlayerController,
    RigidBodyState, GROUND_HEIGHT,
};

verus! {

/// Where the server spawns and respawns players.
pub open spec fn spec_spawn_point() -> Vec3Fix {
    Vec3Fix { x: 0, y: 2000, z: 0 }
}

/// One connected player, as the authority sees it.
#[derive(Clone, Copy, Debug, PartialEq, Eq, Structural)]
pub struct ServerPlayer {
    /// The transport-level identity of the connection.
    pub client_id: u64,
    /// The wire-level identity of the player's object.
    pub entity_id: u64,
    /// The authoritative kinematic state.
    pub body: BodyState,
    pub health: PlayerHealth,
    /// The last input sequence number simulated for this player; echoed in
    /// state updates so the client can reconcile.
    pub last_input_seq: u32,
}

impl ServerPlayer {
    pub open spec fn wf(self) -> bool {
        &&& self.body.wf()
        &&& self.health.wf()
    }
}

/// Who an outbound message goes to.
#[derive(Clone, Copy, Debug, PartialEq, Eq, Structural)]
pub enum Recipient {
    /// Every connected client.
    All,
    /// One client, by its connection id.
    One(u64),
}

/// A message the server wants sent, with its destination; the transport
/// outside performs the send on the message's own channel.
#[derive(Clone, Copy, Debug, PartialEq, Eq, Structural)]
pub struct OutboundMessage {
    pub recipient: Recipient,
    pub message: NetworkMessage,
}

/// The index of the player with a client id, or -1.
pub open spec fn spec_player_index(s: Seq<ServerPlayer>, client_id: u64) -> int {
    if exists|j: int| 0 <= j < s.len() && s[j].client_id == client_id {
        choose|j: int| 0 <= j < s.len() && s[j].client_id == client_id
    } else {
        -1
    }
}

/// The state-update message a player's current state produces.
pub open spec fn spec_state_message(p: ServerPlayer) -> NetworkMessage {
    NetworkMessage::PlayerStateUpdate(
        PlayerState {
            entity_id: p.entity_id,
            position: p.body.position,
            velocity: p.body.velocity,
            yaw: p.body.yaw,
            sequence_number: p.last_input_seq,
        },
    )
}

/// The whole authoritative world.
pub struct ServerWorld {
    pub players: Vec<ServerPlayer>,
    /// The movement constants every player simulates with.
    pub controller: PlayerController,
    /// The one tracked non-player physics body.
    pub cube: RigidBodyState,
    pub cube_entity_id: u64,
    /// The next entity id to hand out; ids are never reused.
    pub next_entity_id: u64,
}

impl ServerWorld {
    /// Well-formed: bounded states, and client ids as well as entity ids
    /// unique, every entity id below the allocation counter.
    pub open spec fn wf(self) -> bool {
        &&& self.controller.wf()
        &&& self.cube.wf()
        &&& forall|i: int| 0 <= i < self.players@.len() ==> (#[trigger] self.players@[i]).wf()
        &&& forall|i: int, j: int|
            0 <= i < j < self.players@.len() ==> self.players@[i].client_id != self.players@[
                j
            ].client_id
        &&& forall|i: int, j: int|
            0 <= i < j < self.players@.len() ==> self.players@[i].entity_id != self.players@[
                j
            ].entity_id
        &&& forall|i: int|
            0 <= i < self.players@.len() ==> (#[trigger] self.players@[i]).entity_id
                < self.next_entity_id
        &&& forall|i: int|
            0 <= i < self.players@.len() ==> (#[trigger] self.players@[i]).entity_id
                != self.cube_entity_id
        &&& self.cube_entity_id < self.next_entity_id
    }

    /// A fresh world: no players, the falling cube five units up, resting
    /// height one unit (floor top plus its own half extent).
    pub fn new() -> (r: ServerWorld)
        ensures
            r.players@ == Seq::<ServerPlayer>::empty(),
            r.cube == (RigidBodyState {
                position: Vec3Fix { x: 0, y: 5000, z: 0 },
                velocity: Vec3Fix { x: 0, y: 0, z: 0 },
                gravity: -9810i64,
                bounciness: 700,
                ground_level: 1000,
            }),
            r.cube_entity_id == 0,
            r.next_entity_id == 1,
            r.controller == (PlayerController {
                move_speed: 5000,
                jump_force: 7500,
                gravity: -18000i64,
            }),
            r.wf(),
    {
        ServerWorld {
            players: Vec::new(),
            controller: PlayerController::standard(),
            cube: RigidBodyState {
                position: Vec3Fix { x: 0, y: 5000, z: 0 },
                velocity: Vec3Fix { x: 0, y: 0, z: 0 },
                gravity: -9810,
                bounciness: 700,
                ground_level: 1000,
            },
            cube_entity_id: 0,
            next_entity_id: 1,
        }
    }

    /// The position of the player with a client id, if connected.
    fn find_player(&self, client_id: u64) -> (r: Option<usize>)
        requires
            self.wf(),
        ensures
            match r {
                Some(i) => i < self.players@.len() && self.players@[i as int].client_id
                    == client_id && i == spec_player_index(self.players@, client_id),
                None => spec_player_index(self.players@, client_id) == -1,
            },
    {
        let n = self.players.len();
        let mut i: usize = 0;
        while i < n
            invariant
                i <= n,
                n == self.players@.len(),
                self.wf(),
                forall|j: int| 0 <= j < i ==> self.players@[j].client_id != client_id,
            decreases n - i,
        {
            if self.players[i].client_id == client_id {
                proof {
                    let w = spec_player_index(self.players@, client_id);
                    assert(self.players@[w].client_id == client_id);
                    assert(w == i);
                }
                return Some(i);
            }
            i = i + 1;
        }
        None
    }

    /// The roster a newly connected client is sent: for every existing
    /// player, its connect message followed by its current state, both
    /// addressed to the new client alone.
    pub open spec fn spec_roster(s: Seq<ServerPlayer>, to: u64) -> Seq<OutboundMessage>
        decreases s.len(),
    {
        if s.len() == 0 {
            Seq::empty()
        } else {
            Self::spec_roster(s.drop_last(), to) + seq![
                OutboundMessage {
                    recipient: Recipient::One(to),
                    message: NetworkMessage::PlayerConnected {
                        entity_id: s.last().entity_id,
                        client_id: s.last().client_id,
                    },
                },
                OutboundMessage {
                    recipient: Recipient::One(to),
                    message: spec_state_message(s.last()),
                },
            ]
        }
    }

    /// A client connected: spawn its player at the spawn point with full
    /// health, send it the roster of everyone already here, then announce
    /// the newcomer to everyone (the newcomer included).
    ///
    /// A client id already connected is ignored: no spawn, no messages.
    pub fn connect(&mut self, client_id: u64) -> (msgs: Vec<OutboundMessage>)
        requires
            old(self).wf(),
            old(self).next_entity_id < 0xffff_ffff_ffff_ffffu64,
        ensures
            final(self).wf(),
            final(self).controller == old(self).controller,
            final(self).cube == old(self).cube,
            final(self).cube_entity_id == old(self).cube_entity_id,
            spec_player_index(old(self).players@, client_id) >= 0 ==> {
                &&& final(self).players@ == old(self).players@
                &&& final(self).next_entity_id == old(self).next_entity_id
                &&& msgs@ == Seq::<OutboundMessage>::empty()
            },
            spec_player_index(old(self).players@, client_id) == -1 ==> {
                &&& final(self).players@ == old(self).players@.push(
                    ServerPlayer {
                        client_id,
                        entity_id: old(self).next_entity_id,
                        body: BodyState {
                            position: spec_spawn_point(),
                            velocity: Vec3Fix { x: 0, y: 0, z: 0 },
                            yaw: 0,
                            grounded: false,
                        },
                        health: PlayerHealth { current: 100_000, max: 100_000 },
                        last_input_seq: 0,
                    },
                )
                &&& final(self).next_entity_id == old(self).next_entity_id + 1
                &&& msgs@ == Self::spec_roster(old(self).players@, client_id).push(
                    OutboundMessage {
                        recipient: Recipient::All,
                        message: NetworkMessage::PlayerConnected {
                            entity_id: old(self).next_entity_id,
                            client_id,
                        },
                    },
                )
            },
    {
        if self.find_player(client_id).is_some() {
            return Vec::new();
        }
        let mut msgs: Vec<OutboundMessage> = Vec::new();
        let n = self.players.len();
        let mut i: usize = 0;
        while i < n
            invariant
                i <= n,
                n == self.players@.len(),
                msgs@ == Self::spec_roster(self.players@.subrange(0, i as int), client_id),
            decreases n - i,
        {
            let p = self.players[i];
            msgs.push(
                OutboundMessage {
                    recipient: Recipient::One(client_id),
                    message: NetworkMessage::PlayerConnected {
                        entity_id: p.entity_id,
                        client_id: p.client_id,
                    },
                },
            );
            msgs.push(
                OutboundMessage {
                    recipient: Recipient::One(client_id),
                    message: NetworkMessage::PlayerStateUpdate(
                        PlayerState {
                            entity_id: p.entity_id,
                            position: p.body.position,
                            velocity: p.body.velocity,
                            yaw: p.body.yaw,
                            sequence_number: p.last_input_seq,
                        },
                    ),
                },
            );
            proof {
                let pre = self.players@.subrange(0, i as int);
                let cur = self.players@.subrange(0, i as int + 1);
                assert(cur.drop_last() =~= pre);
                assert(cur.last() == p);
                assert(msgs@ =~= Self::spec_roster(cur, client_id));
            }
            i = i + 1;
        }
        proof {
            assert(self.players@.subrange(0, n as int) =~= self.players@);
        }
        let entity_id = self.next_entity_id;
        self.next_entity_id = entity_id + 1;
        let newcomer = ServerPlayer {
            client_id,
            entity_id,
            body: BodyState {
                position: Vec3Fix { x: 0, y: 2000, z: 0 },
                velocity: Vec3Fix { x: 0, y: 0, z: 0 },
                yaw: 0,
                grounded: false,
            },
            health: PlayerHealth::full(),
            last_input_seq: 0,
        };
        self.players.push(newcomer);
        msgs.push(
            OutboundMessage {
                recipient: Recipient::All,
                message: NetworkMessage::PlayerConnected { entity_id, client_id },
            },
        );
        msgs
    }

    /// A client disconnected: remove its player from every server-side
    /// table and announce the departure. An unknown client id is ignored.
    pub fn disconnect(&mut self, client_id: u64) -> (msgs: Vec<OutboundMessage>)
        requires
            old(self).wf(),
        ensures
            final(self).wf(),
            final(self).controller == old(self).controller,
            final(self).cube == old(self).cube,
            final(self).cube_entity_id == old(self).cube_entity_id,
            final(self).next_entity_id == old(self).next_entity_id,
            ({
                let j = spec_player_index(old(self).players@, client_id);
                if j >= 0 {
                    &&& final(self).players@ == old(self).players@.remove(j)
                    &&& msgs@ == seq![
                        OutboundMessage {
                            recipient: Recipient::All,
                            message: NetworkMessage::PlayerDisconnected {
                                entity_id: old(self).players@[j].entity_id,
                            },
                        },
                    ]
                } else {
                    &&& final(self).players@ == old(self).players@
                    &&& msgs@ == Seq::<OutboundMessage>::empty()
                }
            }),
    {
        match self.find_player(client_id) {
            Some(i) => {
                let p = self.players[i];
                self.players.remove(i);
                let mut msgs: Vec<OutboundMessage> = Vec::new();
                msgs.push(
                    OutboundMessage {
                        recipient: Recipient::All,
                        message: NetworkMessage::PlayerDisconnected { entity_id: p.entity_id },
                    },
                );
                proof {
                    assert(msgs@ =~= seq![
                        OutboundMessage {
                            recipient: Recipient::All,
                            message: NetworkMessage::PlayerDisconnected { entity_id: p.entity_id },
                        },
                    ]);
                }
                msgs
            },
            None => Vec::new(),
        }
    }
}

/// A player after taking `damage`: health saturates at zero.
pub open spec fn spec_damaged(p: ServerPlayer, damage: int) -> ServerPlayer {
    ServerPlayer {
        health: PlayerHealth {
            current: if damage >= p.health.current {
                0
            } else {
                (p.health.current - damage) as i64
            },
            max: p.health.max,
        },
        ..p
    }
}

/// The player list after one input from `client_id`: the addressed player
/// stepped by [`spec_step`] and stamped with the input's sequence number;
/// unchanged when the client is unknown or the input out of bounds.
pub open spec fn spec_apply_input(
    players: Seq<ServerPlayer>,
    ctrl: PlayerController,
    client_id: u64,
    input: PlayerInput,
    dt_ms: u32,
) -> Seq<ServerPlayer> {
    let j = spec_player_index(players, client_id);
    if j == -1 || !input.wf() {
        players
    } else {
        players.update(
            j,
            ServerPlayer {
                body: spec_step(players[j].body, ctrl, input, dt_ms),
                last_input_seq: input.sequence_number,
                ..players[j]
            },
        )
    }
}

/// Whether player `j` can be hit by a shot from the player with entity id
/// `shooter_entity`.
pub open spec fn spec_shot_eligible(
    players: Seq<ServerPlayer>,
    shooter_entity: u64,
    j: int,
    origin: Vec3Fix,
    dir: Vec3Fix,
    range: int,
) -> bool {
    &&& players[j].entity_id != shooter_entity
    &&& spec_hit_candidate(origin, dir, players[j].body.position, range)
}

/// Everything one shot does. A shot with out-of-bounds geometry or from an
/// unknown client does nothing. Otherwise: if some other player is
/// eligible (in range, in the cone, near the ray), the one closest along
/// the ray — earliest index on a tie — takes the weapon's damage, and a
/// health update plus a hit marker are broadcast; with no eligible target
/// the shot misses and nothing changes.
pub open spec fn spec_shot_outcome(
    pre: Seq<ServerPlayer>,
    post: Seq<ServerPlayer>,
    msgs: Seq<OutboundMessage>,
    hit: Option<usize>,
    shooter_client: u64,
    origin: Vec3Fix,
    dir: Vec3Fix,
    weapon_type: WeaponType,
) -> bool {
    let stats = WeaponStats::spec_from_type(weapon_type);
    let sj = spec_player_index(pre, shooter_client);
    if !origin.in_world() || !spec_dir_wf(dir) || sj == -1 {
        post == pre && msgs.len() == 0 && hit is None
    } else {
        let shooter_entity = pre[sj].entity_id;
        match hit {
            Some(i) => {
                &&& i < pre.len()
                &&& spec_shot_eligible(pre, shooter_entity, i as int, origin, dir, stats.range as int)
                &&& forall|j: int|
                    0 <= j < pre.len() && spec_shot_eligible(
                        pre,
                        shooter_entity,
                        j,
                        origin,
                        dir,
                        stats.range as int,
                    ) ==> spec_ray_dot(origin, dir, pre[i as int].body.position) <= spec_ray_dot(
                        origin,
                        dir,
                        pre[j].body.position,
                    )
                &&& forall|j: int|
                    0 <= j < i && spec_shot_eligible(
                        pre,
                        shooter_entity,
                        j,
                        origin,
                        dir,
                        stats.range as int,
                    ) ==> spec_ray_dot(origin, dir, pre[i as int].body.position) < spec_ray_dot(
                        origin,
                        dir,
                        pre[j].body.position,
                    )
                &&& post == pre.update(i as int, spec_damaged(pre[i as int], stats.damage as int))
                &&& msgs == seq![
                    OutboundMessage {
                        recipient: Recipient::All,
                        message: NetworkMessage::HealthUpdate {
                            entity_id: pre[i as int].entity_id,
                            current_health: spec_damaged(
                                pre[i as int],
                                stats.damage as int,
                            ).health.current,
                            max_health: pre[i as int].health.max,
                        },
                    },
                    OutboundMessage {
                        recipient: Recipient::All,
                        message: NetworkMessage::ProjectileHit {
                            position: pre[i as int].body.position,
                            damage: stats.damage,
                        },
                    },
                ]
            },
            None => {
                &&& forall|j: int|
                    0 <= j < pre.len() ==> !spec_shot_eligible(
                        pre,
                        shooter_entity,
                        j,
                        origin,
                        dir,
                        stats.range as int,
                    )
                &&& post == pre
                &&& msgs.len() == 0
            },
        }
    }
}

impl ServerWorld {
    /// Simulate one buffered input for a client, with the server's fixed
    /// tick delta. An unknown client — for instance one that disconnected
    /// while its inputs were still buffered — or an out-of-bounds input is
    /// ignored silently: the loop never stops for one bad message.
    pub fn apply_input(&mut self, client_id: u64, input: &PlayerInput, dt_ms: u32)
        requires
            old(self).wf(),
        ensures
            final(self).wf(),
            final(self).players@ == spec_apply_input(
                old(self).players@,
                old(self).controller,
                client_id,
                *input,
                dt_ms,
            ),
            final(self).controller == old(self).controller,
            final(self).cube == old(self).cube,
            final(self).cube_entity_id == old(self).cube_entity_id,
            final(self).next_entity_id == old(self).next_entity_id,
    {
        if !input.check_wf() {
            return ;
        }
        match self.find_player(client_id) {
            Some(i) => {
                let p = self.players[i];
                let stepped = simulation_step(&p.body, &self.controller, input, dt_ms);
                self.players.set(
                    i,
                    ServerPlayer {
                        body: stepped,
                        last_input_seq: input.sequence_number,
                        ..p
                    },
                );
            },
            None => (),
        }
    }

    /// Drain one channel-0 message: a player input is simulated, anything
    /// else — undecodable bytes included — is dropped and the world left
    /// unchanged.
    pub fn handle_channel0_message(&mut self, client_id: u64, bytes: &Vec<u8>, dt_ms: u32)
        requires
            old(self).wf(),
        ensures
            final(self).wf(),
            final(self).controller == old(self).controller,
            final(self).cube == old(self).cube,
            final(self).cube_entity_id == old(self).cube_entity_id,
            final(self).next_entity_id == old(self).next_entity_id,
            forall|i: PlayerInput|
                bytes@ == spec_encode(NetworkMessage::PlayerInput(i)) ==> final(self).players@
                    == spec_apply_input(old(self).players@, old(self).controller, client_id, i, dt_ms),
            (forall|i: PlayerInput| bytes@ != spec_encode(NetworkMessage::PlayerInput(i)))
                ==> final(self).players@ == old(self).players@,
    {
        match decode_message(bytes) {
            Some(NetworkMessage::PlayerInput(input)) => {
                self.apply_input(client_id, &input, dt_ms);
                proof {
                    assert forall|i: PlayerInput|
                        bytes@ == spec_encode(NetworkMessage::PlayerInput(i)) implies i
                        == input by {
                        crate::codec::lemma_encode_injective(
                            NetworkMessage::PlayerInput(i),
                            NetworkMessage::PlayerInput(input),
                        );
                    }
                }
            },
            _ => (),
        }
    }

    /// Resolve one shot from a client. Returns the index of the player hit
    /// (if any) and the broadcasts the hit produced; see
    /// [`spec_shot_outcome`] for the exact promise.
    pub fn process_shot(
        &mut self,
        shooter_client: u64,
        origin: &Vec3Fix,
        dir: &Vec3Fix,
        weapon_type: WeaponType,
    ) -> (r: (Option<usize>, Vec<OutboundMessage>))
        requires
            old(self).wf(),
        ensures
            final(self).wf(),
            spec_shot_outcome(
                old(self).players@,
                final(self).players@,
                r.1@,
                r.0,
                shooter_client,
                *origin,
                *dir,
                weapon_type,
            ),
            final(self).controller == old(self).controller,
            final(self).cube == old(self).cube,
            final(self).cube_entity_id == old(self).cube_entity_id,
            final(self).next_entity_id == old(self).next_entity_id,
    {
        if !origin.check_in_world() || !check_dir_wf(dir) {
            return (None, Vec::new());
        }
        let shooter = match self.find_player(shooter_client) {
            Some(i) => i,
            None => {
                return (None, Vec::new());
            },
        };
        let shooter_entity = self.players[shooter].entity_id;
        let stats = WeaponStats::from_type(weapon_type);
        let mut targets: Vec<Target> = Vec::new();
        let n = self.players.len();
        let mut k: usize = 0;
        while k < n
            invariant
                k <= n,
                n == self.players@.len(),
                targets@.len() == k,
                forall|j: int|
                    0 <= j < k ==> #[trigger] targets@[j] == (Target {
                        entity_id: self.players@[j].entity_id,
                        position: self.players@[j].body.position,
                    }),
            decreases n - k,
        {
            let p = self.players[k];
            targets.push(Target { entity_id: p.entity_id, position: p.body.position });
            k = k + 1;
        }
        let ghost pre = self.players@;
        let ghost range_i = stats.range as int;
        let hit = hit_scan(origin, dir, &targets, shooter_entity, stats.range);
        proof {
            assert forall|j: int|
                0 <= j < pre.len() implies #[trigger] targets@[j] == (Target {
                entity_id: pre[j].entity_id,
                position: pre[j].body.position,
            }) by {}
            match hit {
                Some(i) => {
                    assert(targets@[i as int].entity_id == pre[i as int].entity_id);
                    assert(spec_shot_eligible(pre, shooter_entity, i as int, *origin, *dir, range_i));
                    assert forall|j: int|
                        0 <= j < pre.len() && spec_shot_eligible(
                            pre,
                            shooter_entity,
                            j,
                            *origin,
                            *dir,
                            range_i,
                        ) implies spec_ray_dot(*origin, *dir, pre[i as int].body.position)
                        <= spec_ray_dot(*origin, *dir, pre[j].body.position) by {
                        assert(targets@[j].entity_id == pre[j].entity_id);
                        assert(targets@[j].position == pre[j].body.position);
                    }
                    assert forall|j: int|
                        0 <= j < i && spec_shot_eligible(
                            pre,
                            shooter_entity,
                            j,
                            *origin,
                            *dir,
                            range_i,
                        ) implies spec_ray_dot(*origin, *dir, pre[i as int].body.position)
                        < spec_ray_dot(*origin, *dir, pre[j].body.position) by {
                        assert(targets@[j].entity_id == pre[j].entity_id);
                        assert(targets@[j].position == pre[j].body.position);
                    }
                },
                None => {
                    assert forall|j: int|
                        0 <= j < pre.len() implies !spec_shot_eligible(
                        pre,
                        shooter_entity,
                        j,
                        *origin,
                        *dir,
                        range_i,
                    ) by {
                        assert(targets@[j].entity_id == pre[j].entity_id);
                        assert(targets@[j].position == pre[j].body.position);
                    }
                },
            }
        }
        match hit {
            Some(i) => {
                let p = self.players[i];
                let mut health = p.health;
                health.take_damage(stats.damage);
                self.players.set(i, ServerPlayer { health, ..p });
                let mut msgs: Vec<OutboundMessage> = Vec::new();
                msgs.push(
                    OutboundMessage {
                        recipient: Recipient::All,
                        message: NetworkMessage::HealthUpdate {
                            entity_id: p.entity_id,
                            current_health: health.current,
                            max_health: p.health.max,
                        },
                    },
                );
                msgs.push(
                    OutboundMessage {
                        recipient: Recipient::All,
                        message: NetworkMessage::ProjectileHit {
                            position: p.body.position,
                            damage: stats.damage,
                        },
                    },
                );
                proof {
                    assert(msgs@ =~= seq![
                        OutboundMessage {
                            recipient: Recipient::All,
                            message: NetworkMessage::HealthUpdate {
                                entity_id: p.entity_id,
                                current_health: health.current,
                                max_health: p.health.max,
                            },
                        },
                        OutboundMessage {
                            recipient: Recipient::All,
                            message: NetworkMessage::ProjectileHit {
                                position: p.body.position,
                                damage: stats.damage,
                            },
                        },
                    ]);
                }
                (Some(i), msgs)
            },
            None => (None, Vec::new()),
        }
    }

    /// Drain one channel-1 message: a shoot event is resolved, anything
    /// else is dropped. Returns what [`ServerWorld::process_shot`] returns.
    pub fn handle_channel1_message(&mut self, client_id: u64, bytes: &Vec<u8>) -> (r: (
        Option<usize>,
        Vec<OutboundMessage>,
    ))
        requires
            old(self).wf(),
        ensures
            final(self).wf(),
            final(self).controller == old(self).controller,
            final(self).cube == old(self).cube,
            final(self).cube_entity_id == old(self).cube_entity_id,
            final(self).next_entity_id == old(self).next_entity_id,
            forall|o: Vec3Fix, d: Vec3Fix, w: WeaponType|
                bytes@ == spec_encode(
                    NetworkMessage::PlayerShoot { origin: o, direction: d, weapon_type: w },
                ) ==> spec_shot_outcome(
                    old(self).players@,
                    final(self).players@,
                    r.1@,
                    r.0,
                    client_id,
                    o,
                    d,
                    w,
                ),
            (forall|o: Vec3Fix, d: Vec3Fix, w: WeaponType|
                bytes@ != spec_encode(
                    NetworkMessage::PlayerShoot { origin: o, direction: d, weapon_type: w },
                )) ==> final(self).players@ == old(self).players@ && r.0 is None && r.1@.len()
                == 0,
    {
        match decode_message(bytes) {
            Some(NetworkMessage::PlayerShoot { origin, direction, weapon_type }) => {
                let r = self.process_shot(client_id, &origin, &direction, weapon_type);
                proof {
                    assert forall|o: Vec3Fix, d: Vec3Fix, w: WeaponType|
                        bytes@ == spec_encode(
                            NetworkMessage::PlayerShoot { origin: o, direction: d, weapon_type: w },
                        ) implies o == origin && d == direction && w == weapon_type by {
                        crate::codec::lemma_encode_injective(
                            NetworkMessage::PlayerShoot { origin: o, direction: d, weapon_type: w },
                            NetworkMessage::PlayerShoot { origin, direction, weapon_type },
                        );
                    }
                }
                r
            },
            _ => (None, Vec::new()),
        }
    }

    /// Advance the tracked physics body by one tick.
    pub fn step_physics_bodies(&mut self, dt_ms: u32)
        requires
            old(self).wf(),
        ensures
            final(self).wf(),
            final(self).cube == spec_body_step(old(self).cube, dt_ms),
            final(self).players@ == old(self).players@,
            final(self).controller == old(self).controller,
            final(self).cube_entity_id == old(self).cube_entity_id,
            final(self).next_entity_id == old(self).next_entity_id,
    {
        self.cube = rigid_body_step(&self.cube, dt_ms);
    }

    /// A player held to the ground: at or below standing height it is
    /// clamped there, its fall stopped, and marked grounded; above it, it
    /// is airborne.
    pub open spec fn spec_ground_clamp(p: ServerPlayer) -> ServerPlayer {
        if p.body.position.y <= GROUND_HEIGHT {
            ServerPlayer {
                body: BodyState {
                    position: Vec3Fix { y: GROUND_HEIGHT, ..p.body.position },
                    velocity: Vec3Fix { y: 0, ..p.body.velocity },
                    grounded: true,
                    ..p.body
                },
                ..p
            }
        } else {
            ServerPlayer { body: BodyState { grounded: false, ..p.body }, ..p }
        }
    }

    /// Apply the ground clamp to every player, as the per-tick floor
    /// collision pass.
    pub fn ground_clamp_players(&mut self)
        requires
            old(self).wf(),
        ensures
            final(self).wf(),
            final(self).players@ == old(self).players@.map_values(
                |p: ServerPlayer| Self::spec_ground_clamp(p),
            ),
            final(self).controller == old(self).controller,
            final(self).cube == old(self).cube,
            final(self).cube_entity_id == old(self).cube_entity_id,
            final(self).next_entity_id == old(self).next_entity_id,
    {
        let n = self.players.len();
        let mut i: usize = 0;
        while i < n
            invariant
                i <= n,
                n == self.players@.len(),
                old(self).wf(),
                self.controller == old(self).controller,
                self.cube == old(self).cube,
                self.cube_entity_id == old(self).cube_entity_id,
                self.next_entity_id == old(self).next_entity_id,
                forall|j: int|
                    0 <= j < i ==> #[trigger] self.players@[j] == Self::spec_ground_clamp(
                        old(self).players@[j],
                    ),
                forall|j: int| i <= j < n ==> #[trigger] self.players@[j] == old(self).players@[j],
            decreases n - i,
        {
            let p = self.players[i];
            if p.body.position.y <= GROUND_HEIGHT {
                self.players.set(
                    i,
                    ServerPlayer {
                        body: BodyState {
                            position: Vec3Fix { y: GROUND_HEIGHT, ..p.body.position },
                            velocity: Vec3Fix { y: 0, ..p.body.velocity },
                            grounded: true,
                            ..p.body
                        },
                        ..p
                    },
                );
            } else {
                self.players.set(
                    i,
                    ServerPlayer { body: BodyState { grounded: false, ..p.body }, ..p },
                );
            }
            i = i + 1;
        }
        proof {
            assert(self.players@ =~= old(self).players@.map_values(
                |p: ServerPlayer| Self::spec_ground_clamp(p),
            ));
        }
    }

    /// A dead player reset for respawn: back at the spawn point with full
    /// health; velocity and heading carry over.
    pub open spec fn spec_respawned(p: ServerPlayer) -> ServerPlayer {
        ServerPlayer {
            body: BodyState { position: spec_spawn_point(), ..p.body },
            health: PlayerHealth { current: 100_000, max: 100_000 },
            ..p
        }
    }

    /// The death announcements one pass produces, in player order: for
    /// each player whose health has reached zero, its death then its
    /// respawn.
    pub open spec fn spec_death_msgs(s: Seq<ServerPlayer>) -> Seq<OutboundMessage>
        decreases s.len(),
    {
        if s.len() == 0 {
            Seq::empty()
        } else {
            Self::spec_death_msgs(s.drop_last()) + (if s.last().health.current <= 0 {
                seq![
                    OutboundMessage {
                        recipient: Recipient::All,
                        message: NetworkMessage::PlayerDied {
                            entity_id: s.last().entity_id,
                            killer_id: None,
                        },
                    },
                    OutboundMessage {
                        recipient: Recipient::All,
                        message: NetworkMessage::PlayerRespawn {
                            entity_id: s.last().entity_id,
                            position: spec_spawn_point(),
                        },
                    },
                ]
            } else {
                Seq::empty()
            })
        }
    }

    /// Find every player whose health has reached zero; announce its
    /// death, reset it to full health at the spawn point, and announce the
    /// respawn.
    pub fn check_deaths(&mut self) -> (msgs: Vec<OutboundMessage>)
        requires
            old(self).wf(),
        ensures
            final(self).wf(),
            final(self).players@ == old(self).players@.map_values(
                |p: ServerPlayer|
                    if p.health.current <= 0 {
                        Self::spec_respawned(p)
                    } else {
                        p
                    },
            ),
            msgs@ == Self::spec_death_msgs(old(self).players@),
            final(self).controller == old(self).controller,
            final(self).cube == old(self).cube,
            final(self).cube_entity_id == old(self).cube_entity_id,
            final(self).next_entity_id == old(self).next_entity_id,
    {
        let mut msgs: Vec<OutboundMessage> = Vec::new();
        let n = self.players.len();
        let mut i: usize = 0;
        while i < n
            invariant
                i <= n,
                n == self.players@.len(),
                n == old(self).players@.len(),
                old(self).wf(),
                self.controller == old(self).controller,
                self.cube == old(self).cube,
                self.cube_entity_id == old(self).cube_entity_id,
                self.next_entity_id == old(self).next_entity_id,
                msgs@ == Self::spec_death_msgs(old(self).players@.subrange(0, i as int)),
                forall|j: int|
                    0 <= j < i ==> #[trigger] self.players@[j] == (if old(
                        self,
                    ).players@[j].health.current <= 0 {
                        Self::spec_respawned(old(self).players@[j])
                    } else {
                        old(self).players@[j]
                    }),
                forall|j: int| i <= j < n ==> #[trigger] self.players@[j] == old(self).players@[j],
            decreases n - i,
        {
            let p = self.players[i];
            if !(p.health.current > 0) {
                msgs.push(
                    OutboundMessage {
                        recipient: Recipient::All,
                        message: NetworkMessage::PlayerDied {
                            entity_id: p.entity_id,
                            killer_id: None,
                        },
                    },
                );
                msgs.push(
                    OutboundMessage {
                        recipient: Recipient::All,
                        message: NetworkMessage::PlayerRespawn {
                            entity_id: p.entity_id,
                            position: Vec3Fix { x: 0, y: 2000, z: 0 },
                        },
                    },
                );
                self.players.set(
                    i,
                    ServerPlayer {
                        body: BodyState {
                            position: Vec3Fix { x: 0, y: 2000, z: 0 },
                            ..p.body
                        },
                        health: PlayerHealth::full(),
                        ..p
                    },
                );
            }
            proof {
                let pre = old(self).players@.subrange(0, i as int);
                let cur = old(self).players@.subrange(0, i as int + 1);
                assert(cur.drop_last() =~= pre);
                assert(cur.last() == old(self).players@[i as int]);
                assert(msgs@ =~= Self::spec_death_msgs(cur));
            }
            i = i + 1;
        }
        proof {
            assert(old(self).players@.subrange(0, n as int) =~= old(self).players@);
            assert(self.players@ =~= old(self).players@.map_values(
                |p: ServerPlayer|
                    if p.health.current <= 0 {
                        Self::spec_respawned(p)
                    } else {
                        p
                    },
            ));
        }
        msgs
    }

    /// The per-tick broadcast: one state update per player, in player
    /// order.
    pub open spec fn spec_snapshot_msgs(s: Seq<ServerPlayer>) -> Seq<OutboundMessage>
        decreases s.len(),
    {
        if s.len() == 0 {
            Seq::empty()
        } else {
            Self::spec_snapshot_msgs(s.drop_last()).push(
                OutboundMessage { recipient: Recipient::All, message: spec_state_message(s.last()) },
            )
        }
    }

    /// Build the tick's unconditional broadcast: every player's state and
    /// the tracked body's transform, whether or not anything changed.
    pub fn snapshot_messages(&self) -> (msgs: Vec<OutboundMessage>)
        requires
            self.wf(),
        ensures
            msgs@ == Self::spec_snapshot_msgs(self.players@).push(
                OutboundMessage {
                    recipient: Recipient::All,
                    message: NetworkMessage::RigidBodyUpdate {
                        entity_id: self.cube_entity_id,
                        position: self.cube.position,
                        yaw: 0,
                    },
                },
            ),
    {
        let mut msgs: Vec<OutboundMessage> = Vec::new();
        let n = self.players.len();
        let mut i: usize = 0;
        while i < n
            invariant
                i <= n,
                n == self.players@.len(),
                msgs@ == Self::spec_snapshot_msgs(self.players@.subrange(0, i as int)),
            decreases n - i,
        {
            let p = self.players[i];
            msgs.push(
                OutboundMessage {
                    recipient: Recipient::All,
                    message: NetworkMessage::PlayerStateUpdate(
                        PlayerState {
                            entity_id: p.entity_id,
                            position: p.body.position,
                            velocity: p.body.velocity,
                            yaw: p.body.yaw,
                            sequence_number: p.last_input_seq,
                        },
                    ),
                },
            );
            proof {
                let pre = self.players@.subrange(0, i as int);
                let cur = self.players@.subrange(0, i as int + 1);
                assert(cur.drop_last() =~= pre);
                assert(cur.last() == p);
                assert(msgs@ =~= Self::spec_snapshot_msgs(cur));
            }
            i = i + 1;
        }
        proof {
            assert(self.players@.subrange(0, n as int) =~= self.players@);
        }
        msgs.push(
            OutboundMessage {
                recipient: Recipient::All,
                message: NetworkMessage::RigidBodyUpdate {
                    entity_id: self.cube_entity_id,
                    position: self.cube.position,
                    yaw: 0,
                },
            },
        );
        msgs
    }
}

} // verus!
