//! The client: immediate local prediction, reconciliation against server
//! truth, and mirroring of remote entities.
//!
//! Each frame the client records its input (stamping it with the next
//! sequence number), sends it, and applies it locally at once through the
//! same [`simulation_step`] the server runs — motion shows with zero
//! perceived latency. When the server's state for the local player arrives,
//! the inputs it acknowledges are dropped from the history and the local
//! state snaps to the server's values: authority always wins over
//! prediction. Remote entities are never predicted, only overwritten.
//!
//! The functions here return [`ClientEvent`]s: what the renderer outside
//! must do (spawn, despawn, move a visual). The core does not know how
//! entities are drawn.

use vstd::prelude::*;
use crate::codec::{decode_message, spec_encode};
use crate::entity_map::EntityIdMap;
use crate::history::InputHistory;
use crate::protocol::{ANGLE_LIMIT, NetworkMessage, PlayerInput, Vec2Fix, Vec3Fix};
use crate::sim::{simulation_step, spec_step, BodyState, PlayerController, GROUND_HEIGHT};

verus! {

/// What the client core asks of the rendering side.
#[derive(Clone, Copy, Debug, PartialEq, Eq, Structural)]
pub enum ClientEvent {
    /// Create the controllable representation of this client's own player.
    SpawnLocalPlayer { handle: u64, entity_id: u64 },
    /// Create a representation of another player.
    SpawnRemotePlayer { handle: u64, entity_id: u64 },
    /// Create a placeholder for a physics body first seen through a state
    /// update.
    SpawnRigidBody { handle: u64, position: Vec3Fix, yaw: i64 },
    /// Remove a representation.
    Despawn { handle: u64 },
    /// Move a representation to a transform the server dictated.
    UpdateTransform { handle: u64, position: Vec3Fix, yaw: i64 },
    /// The local player's health pool changed.
    HealthChanged { current: i64, max: i64 },
    /// A player died (feedback only; the server respawns it).
    Died { entity_id: u64, killer_id: Option<u64> },
    /// A player is back at a spawn point.
    Respawned { entity_id: u64, position: Vec3Fix },
    /// A projectile landed somewhere; show it.
    HitEffect { position: Vec3Fix, damage: i64 },
}

/// This client's own player, once the server has announced it.
#[derive(Clone, Copy, Debug, PartialEq, Eq, Structural)]
pub struct LocalPlayer {
    pub handle: u64,
    pub entity_id: u64,
    /// The predicted state: provisional, snapped to the server's word
    /// whenever one arrives.
    pub body: BodyState,
}

/// The client-side world: the id map, the input history, and the local
/// player's predicted state.
pub struct ClientWorld {
    /// Network entity id to local handle, for everything spawned here.
    pub id_map: EntityIdMap,
    /// Sent inputs not yet acknowledged by the server.
    pub history: InputHistory,
    /// The connection id this client introduced itself with.
    pub our_client_id: u64,
    pub local: Option<LocalPlayer>,
    /// Movement constants; must equal the server's.
    pub controller: PlayerController,
    /// Local handle allocator.
    pub next_handle: u64,
}

impl ClientWorld {
    pub open spec fn wf(self) -> bool {
        &&& self.id_map.wf()
        &&& self.history.wf()
        &&& self.controller.wf()
        &&& forall|i: int| 0 <= i < self.history@.len() ==> (#[trigger] self.history@[i]).wf()
        &&& match self.local {
            Some(l) => l.body.wf(),
            None => true,
        }
    }

    /// A fresh client world for a connection id.
    pub fn new(our_client_id: u64) -> (r: ClientWorld)
        ensures
            r.id_map@ == Map::<u64, u64>::empty(),
            r.history@ == Seq::<PlayerInput>::empty(),
            r.history.spec_next_sequence() == 0,
            r.our_client_id == our_client_id,
            r.local is None,
            r.next_handle == 1,
            r.controller == (PlayerController {
                move_speed: 5000,
                jump_force: 7500,
                gravity: -18000i64,
            }),
            r.wf(),
    {
        ClientWorld {
            id_map: EntityIdMap::new(),
            history: InputHistory::new(),
            our_client_id,
            local: None,
            controller: PlayerController::standard(),
            next_handle: 1,
        }
    }
}

/// The horizontal intent a set of pressed keys builds: each axis sums its
/// two keys, and a diagonal is cut to 707 thousandths per axis — the unit
/// diagonal, since 707/1000 is one over the square root of two, rounded
/// down.
pub open spec fn spec_move_dir(forward: bool, backward: bool, left: bool, right: bool) -> Vec2Fix {
    let x: int = (if right {
        1000int
    } else {
        0int
    }) - (if left {
        1000int
    } else {
        0int
    });
    let y: int = (if forward {
        1000int
    } else {
        0int
    }) - (if backward {
        1000int
    } else {
        0int
    });
    if x != 0 && y != 0 {
        Vec2Fix {
            x: if x > 0 {
                707
            } else {
                -707i64
            },
            y: if y > 0 {
                707
            } else {
                -707i64
            },
        }
    } else {
        Vec2Fix { x: x as i64, y: y as i64 }
    }
}

/// Build one frame's input from raw device state and the camera's current
/// orientation. Opposed keys cancel; a diagonal is normalized to unit
/// magnitude; the sequence number is left for the history to stamp.
pub fn build_input(
    forward: bool,
    backward: bool,
    left: bool,
    right: bool,
    jump: bool,
    yaw: i64,
    pitch: i64,
) -> (r: PlayerInput)
    requires
        -ANGLE_LIMIT <= yaw <= ANGLE_LIMIT,
        -ANGLE_LIMIT <= pitch <= ANGLE_LIMIT,
    ensures
        r == (PlayerInput {
            move_direction: spec_move_dir(forward, backward, left, right),
            jump,
            yaw,
            pitch,
            sequence_number: 0,
        }),
        r.wf(),
{
    let x: i64 = (if right {
        1000
    } else {
        0
    }) - (if left {
        1000
    } else {
        0
    });
    let y: i64 = (if forward {
        1000
    } else {
        0
    }) - (if backward {
        1000
    } else {
        0
    });
    let move_direction = if x != 0 && y != 0 {
        Vec2Fix {
            x: if x > 0 {
                707
            } else {
                -707
            },
            y: if y > 0 {
                707
            } else {
                -707
            },
        }
    } else {
        Vec2Fix { x, y }
    };
    proof {
        let mx = move_direction.x;
        let my = move_direction.y;
        assert(mx * mx + my * my <= 1_000_000) by (nonlinear_arith)
            requires
                (-1000 <= mx <= 1000 && my == 0) || (mx == 0 && -1000 <= my <= 1000) || (-707 <= mx
                    <= 707 && -707 <= my <= 707),
        ;
    }
    PlayerInput { move_direction, jump, yaw, pitch, sequence_number: 0 }
}

impl ClientWorld {
    /// Record one frame's input: stamp it with the next sequence number,
    /// keep it for reconciliation, and hand back the stamped input message
    /// to transmit on channel 0.
    pub fn record_input(&mut self, input: &PlayerInput) -> (r: (u32, NetworkMessage))
        requires
            old(self).wf(),
            input.wf(),
            old(self).history.spec_next_sequence() < 0xffff_ffffu32,
        ensures
            final(self).wf(),
            r.0 == old(self).history.spec_next_sequence(),
            final(self).history.spec_next_sequence() == r.0 + 1,
            final(self).history@ == ({
                let stamped = PlayerInput { sequence_number: r.0, ..*input };
                if old(self).history@.len() < 100 {
                    old(self).history@.push(stamped)
                } else {
                    old(self).history@.subrange(1, 100).push(stamped)
                }
            }),
            r.1 == NetworkMessage::PlayerInput(
                PlayerInput { sequence_number: r.0, ..*input },
            ),
            final(self).id_map == old(self).id_map,
            final(self).local == old(self).local,
            final(self).our_client_id == old(self).our_client_id,
            final(self).controller == old(self).controller,
            final(self).next_handle == old(self).next_handle,
    {
        let seq = self.history.record(*input);
        let stamped = PlayerInput { sequence_number: seq, ..*input };
        proof {
            let h = self.history@;
            assert(h[h.len() - 1] == stamped);
            assert forall|i: int| 0 <= i < h.len() implies (#[trigger] h[i]).wf() by {
                if old(self).history@.len() < 100 {
                    if i < h.len() - 1 {
                        assert(h[i] == old(self).history@[i]);
                    }
                } else {
                    if i < h.len() - 1 {
                        assert(h[i] == old(self).history@[i + 1]);
                    }
                }
            }
        }
        (seq, NetworkMessage::PlayerInput(stamped))
    }

    /// Predict: apply the newest recorded input to the local player at
    /// once, through the very step the server will run on it, so motion
    /// shows before the server answers. Without a local player or a
    /// recorded input nothing moves.
    pub fn predict(&mut self, dt_ms: u32)
        requires
            old(self).wf(),
        ensures
            final(self).wf(),
            match old(self).local {
                Some(l) => {
                    if old(self).history@.len() > 0 {
                        final(self).local == Some(
                            LocalPlayer {
                                body: spec_step(
                                    l.body,
                                    old(self).controller,
                                    old(self).history@[old(self).history@.len() - 1],
                                    dt_ms,
                                ),
                                ..l
                            },
                        )
                    } else {
                        final(self).local == old(self).local
                    }
                },
                None => final(self).local == old(self).local,
            },
            final(self).id_map == old(self).id_map,
            final(self).history == old(self).history,
            final(self).our_client_id == old(self).our_client_id,
            final(self).controller == old(self).controller,
            final(self).next_handle == old(self).next_handle,
    {
        match self.local {
            Some(l) => {
                match self.history.most_recent() {
                    Some(input) => {
                        proof {
                            assert(self.history@[self.history@.len() - 1].wf());
                        }
                        let body = simulation_step(&l.body, &self.controller, &input, dt_ms);
                        self.local = Some(LocalPlayer { body, ..l });
                    },
                    None => (),
                }
            },
            None => (),
        }
    }
}

proof fn lemma_filter_elems<A>(s: Seq<A>, pred: spec_fn(A) -> bool)
    ensures
        forall|i: int|
            0 <= i < s.filter(pred).len() ==> s.contains(#[trigger] s.filter(pred)[i]),
    decreases s.len(),
{
    reveal(Seq::filter);
    if s.len() > 0 {
        lemma_filter_elems(s.drop_last(), pred);
        let out = s.filter(pred);
        let sub = s.drop_last().filter(pred);
        assert forall|i: int| 0 <= i < out.len() implies s.contains(#[trigger] out[i]) by {
            if i < sub.len() {
                assert(sub[i] == out[i]);
                let w = choose|w: int| 0 <= w < s.drop_last().len() && s.drop_last()[w] == sub[i];
                assert(s[w] == out[i]);
            } else {
                assert(out[i] == s.last());
                assert(s[s.len() - 1] == s.last());
            }
        }
    }
}

/// Everything of the client state that a message may not touch, held
/// equal.
pub open spec fn spec_core_unchanged(pre: ClientWorld, post: ClientWorld) -> bool {
    &&& post.id_map@ == pre.id_map@
    &&& post.history@ == pre.history@
    &&& post.history.spec_next_sequence() == pre.history.spec_next_sequence()
    &&& post.local == pre.local
    &&& post.next_handle == pre.next_handle
}

/// Exactly what receiving one message does to the client state and what
/// it asks of the renderer — the reconciliation contract:
/// - a connect spawns a representation (the controllable one when the id
///   is our own) under a fresh handle and maps the entity to it;
/// - a disconnect unmaps and despawns;
/// - a state update for the local player first drops every acknowledged
///   input from the history (exactly those with sequence number at most
///   the update's), then overwrites the predicted state with the server's
///   — a hard snap, authority over prediction; out-of-bounds values are
///   dropped whole;
/// - a state or rigid-body update for an unknown entity spawns a
///   placeholder and maps it — a lost or late connect message must not
///   wedge the stream — and for a known remote entity just moves it;
/// - health, death, respawn and hit messages become renderer events;
/// - client-bound messages never sent to clients do nothing.
pub open spec fn spec_handle_outcome(
    pre: ClientWorld,
    post: ClientWorld,
    events: Seq<ClientEvent>,
    m: NetworkMessage,
) -> bool {
    match m {
        NetworkMessage::PlayerConnected { entity_id, client_id } => {
            &&& post.id_map@ == pre.id_map@.insert(entity_id, pre.next_handle)
            &&& post.next_handle == pre.next_handle + 1
            &&& post.history@ == pre.history@
            &&& post.history.spec_next_sequence() == pre.history.spec_next_sequence()
            &&& if client_id == pre.our_client_id {
                &&& post.local == Some(
                    LocalPlayer {
                        handle: pre.next_handle,
                        entity_id,
                        body: BodyState {
                            position: Vec3Fix { x: 0, y: 0, z: 0 },
                            velocity: Vec3Fix { x: 0, y: 0, z: 0 },
                            yaw: 0,
                            grounded: false,
                        },
                    },
                )
                &&& events == seq![
                    ClientEvent::SpawnLocalPlayer { handle: pre.next_handle, entity_id },
                ]
            } else {
                &&& post.local == pre.local
                &&& events == seq![
                    ClientEvent::SpawnRemotePlayer { handle: pre.next_handle, entity_id },
                ]
            }
        },
        NetworkMessage::PlayerDisconnected { entity_id } => {
            &&& post.id_map@ == pre.id_map@.remove(entity_id)
            &&& post.history@ == pre.history@
            &&& post.history.spec_next_sequence() == pre.history.spec_next_sequence()
            &&& post.local == pre.local
            &&& post.next_handle == pre.next_handle
            &&& if pre.id_map@.contains_key(entity_id) {
                events == seq![ClientEvent::Despawn { handle: pre.id_map@[entity_id] }]
            } else {
                events == Seq::<ClientEvent>::empty()
            }
        },
        NetworkMessage::PlayerStateUpdate(st) => {
            let valid = st.position.in_world() && st.velocity.in_world() && -ANGLE_LIMIT <= st.yaw
                <= ANGLE_LIMIT;
            if pre.local matches Some(l) && pre.id_map@.contains_key(st.entity_id)
                && pre.id_map@[st.entity_id] == l.handle {
                let l = pre.local.unwrap();
                if valid {
                    &&& post.id_map@ == pre.id_map@
                    &&& post.history@ == pre.history@.filter(
                        |e: PlayerInput| e.sequence_number > st.sequence_number,
                    )
                    &&& post.history.spec_next_sequence() == pre.history.spec_next_sequence()
                    &&& post.local == Some(
                        LocalPlayer {
                            body: BodyState {
                                position: st.position,
                                velocity: st.velocity,
                                yaw: st.yaw,
                                grounded: st.position.y <= GROUND_HEIGHT,
                            },
                            ..l
                        },
                    )
                    &&& post.next_handle == pre.next_handle
                    &&& events == seq![
                        ClientEvent::UpdateTransform {
                            handle: l.handle,
                            position: st.position,
                            yaw: st.yaw,
                        },
                    ]
                } else {
                    &&& spec_core_unchanged(pre, post)
                    &&& events == Seq::<ClientEvent>::empty()
                }
            } else if pre.id_map@.contains_key(st.entity_id) {
                &&& spec_core_unchanged(pre, post)
                &&& events == seq![
                    ClientEvent::UpdateTransform {
                        handle: pre.id_map@[st.entity_id],
                        position: st.position,
                        yaw: st.yaw,
                    },
                ]
            } else {
                &&& post.id_map@ == pre.id_map@.insert(st.entity_id, pre.next_handle)
                &&& post.next_handle == pre.next_handle + 1
                &&& post.history@ == pre.history@
                &&& post.history.spec_next_sequence() == pre.history.spec_next_sequence()
                &&& post.local == pre.local
                &&& events == seq![
                    ClientEvent::SpawnRemotePlayer { handle: pre.next_handle, entity_id: st.entity_id },
                    ClientEvent::UpdateTransform {
                        handle: pre.next_handle,
                        position: st.position,
                        yaw: st.yaw,
                    },
                ]
            }
        },
        NetworkMessage::RigidBodyUpdate { entity_id, position, yaw } => {
            if pre.id_map@.contains_key(entity_id) {
                &&& spec_core_unchanged(pre, post)
                &&& events == seq![
                    ClientEvent::UpdateTransform {
                        handle: pre.id_map@[entity_id],
                        position,
                        yaw,
                    },
                ]
            } else {
                &&& post.id_map@ == pre.id_map@.insert(entity_id, pre.next_handle)
                &&& post.next_handle == pre.next_handle + 1
                &&& post.history@ == pre.history@
                &&& post.history.spec_next_sequence() == pre.history.spec_next_sequence()
                &&& post.local == pre.local
                &&& events == seq![
                    ClientEvent::SpawnRigidBody { handle: pre.next_handle, position, yaw },
                ]
            }
        },
        NetworkMessage::HealthUpdate { entity_id, current_health, max_health } => {
            &&& spec_core_unchanged(pre, post)
            &&& if pre.local matches Some(l) && pre.id_map@.contains_key(entity_id)
                && pre.id_map@[entity_id] == l.handle {
                events == seq![
                    ClientEvent::HealthChanged { current: current_health, max: max_health },
                ]
            } else {
                events == Seq::<ClientEvent>::empty()
            }
        },
        NetworkMessage::PlayerDied { entity_id, killer_id } => {
            &&& spec_core_unchanged(pre, post)
            &&& events == seq![ClientEvent::Died { entity_id, killer_id }]
        },
        NetworkMessage::PlayerRespawn { entity_id, position } => {
            &&& spec_core_unchanged(pre, post)
            &&& events == seq![ClientEvent::Respawned { entity_id, position }]
        },
        NetworkMessage::ProjectileHit { position, damage } => {
            &&& spec_core_unchanged(pre, post)
            &&& events == seq![ClientEvent::HitEffect { position, damage }]
        },
        _ => {
            &&& spec_core_unchanged(pre, post)
            &&& events == Seq::<ClientEvent>::empty()
        },
    }
}

impl ClientWorld {
    /// Receive one already-decoded message; see [`spec_handle_outcome`]
    /// for the exact promise.
    pub fn handle_message(&mut self, msg: &NetworkMessage) -> (events: Vec<ClientEvent>)
        requires
            old(self).wf(),
            old(self).next_handle < 0xffff_ffff_ffff_ffffu64,
        ensures
            final(self).wf(),
            spec_handle_outcome(*old(self), *final(self), events@, *msg),
            final(self).our_client_id == old(self).our_client_id,
            final(self).controller == old(self).controller,
            final(self).next_handle >= old(self).next_handle,
    {
        let mut events: Vec<ClientEvent> = Vec::new();
        match msg {
            NetworkMessage::PlayerConnected { entity_id, client_id } => {
                let handle = self.next_handle;
                self.next_handle = handle + 1;
                self.id_map.insert(*entity_id, handle);
                if *client_id == self.our_client_id {
                    self.local = Some(
                        LocalPlayer {
                            handle,
                            entity_id: *entity_id,
                            body: BodyState {
                                position: Vec3Fix { x: 0, y: 0, z: 0 },
                                velocity: Vec3Fix { x: 0, y: 0, z: 0 },
                                yaw: 0,
                                grounded: false,
                            },
                        },
                    );
                    events.push(ClientEvent::SpawnLocalPlayer { handle, entity_id: *entity_id });
                } else {
                    events.push(ClientEvent::SpawnRemotePlayer { handle, entity_id: *entity_id });
                }
            },
            NetworkMessage::PlayerDisconnected { entity_id } => {
                match self.id_map.remove(*entity_id) {
                    Some(handle) => {
                        events.push(ClientEvent::Despawn { handle });
                    },
                    None => (),
                }
            },
            NetworkMessage::PlayerStateUpdate(st) => {
                let local_info = self.local;
                let is_local = match &local_info {
                    Some(l) => {
                        match self.id_map.get(st.entity_id) {
                            Some(h) => h == l.handle,
                            None => false,
                        }
                    },
                    None => false,
                };
                if is_local {
                    let valid = st.position.check_in_world() && st.velocity.check_in_world()
                        && -ANGLE_LIMIT <= st.yaw && st.yaw <= ANGLE_LIMIT;
                    if valid {
                        self.history.acknowledge_up_to(st.sequence_number);
                        let l = local_info.unwrap();
                        self.local = Some(
                            LocalPlayer {
                                body: BodyState {
                                    position: st.position,
                                    velocity: st.velocity,
                                    yaw: st.yaw,
                                    grounded: st.position.y <= GROUND_HEIGHT,
                                },
                                ..l
                            },
                        );
                        events.push(
                            ClientEvent::UpdateTransform {
                                handle: l.handle,
                                position: st.position,
                                yaw: st.yaw,
                            },
                        );
                        proof {
                            let pred = |e: PlayerInput| e.sequence_number > st.sequence_number;
                            lemma_filter_elems(old(self).history@, pred);
                            assert forall|i: int|
                                0 <= i < self.history@.len() implies (
                            #[trigger] self.history@[i]).wf() by {
                                assert(old(self).history@.contains(self.history@[i]));
                                let w = choose|w: int|
                                    0 <= w < old(self).history@.len() && old(self).history@[w]
                                        == self.history@[i];
                                assert(old(self).history@[w].wf());
                            }
                        }
                    }
                } else {
                    match self.id_map.get(st.entity_id) {
                        Some(handle) => {
                            events.push(
                                ClientEvent::UpdateTransform {
                                    handle,
                                    position: st.position,
                                    yaw: st.yaw,
                                },
                            );
                        },
                        None => {
                            let handle = self.next_handle;
                            self.next_handle = handle + 1;
                            self.id_map.insert(st.entity_id, handle);
                            events.push(
                                ClientEvent::SpawnRemotePlayer { handle, entity_id: st.entity_id },
                            );
                            events.push(
                                ClientEvent::UpdateTransform {
                                    handle,
                                    position: st.position,
                                    yaw: st.yaw,
                                },
                            );
                            proof {
                                assert(events@ =~= seq![
                                    ClientEvent::SpawnRemotePlayer {
                                        handle,
                                        entity_id: st.entity_id,
                                    },
                                    ClientEvent::UpdateTransform {
                                        handle,
                                        position: st.position,
                                        yaw: st.yaw,
                                    },
                                ]);
                            }
                        },
                    }
                }
            },
            NetworkMessage::RigidBodyUpdate { entity_id, position, yaw } => {
                match self.id_map.get(*entity_id) {
                    Some(handle) => {
                        events.push(
                            ClientEvent::UpdateTransform {
                                handle,
                                position: *position,
                                yaw: *yaw,
                            },
                        );
                    },
                    None => {
                        let handle = self.next_handle;
                        self.next_handle = handle + 1;
                        self.id_map.insert(*entity_id, handle);
                        events.push(
                            ClientEvent::SpawnRigidBody { handle, position: *position, yaw: *yaw },
                        );
                    },
                }
            },
            NetworkMessage::HealthUpdate { entity_id, current_health, max_health } => {
                let is_local = match &self.local {
                    Some(l) => {
                        match self.id_map.get(*entity_id) {
                            Some(h) => h == l.handle,
                            None => false,
                        }
                    },
                    None => false,
                };
                if is_local {
                    events.push(
                        ClientEvent::HealthChanged { current: *current_health, max: *max_health },
                    );
                }
            },
            NetworkMessage::PlayerDied { entity_id, killer_id } => {
                events.push(ClientEvent::Died { entity_id: *entity_id, killer_id: *killer_id });
            },
            NetworkMessage::PlayerRespawn { entity_id, position } => {
                events.push(
                    ClientEvent::Respawned { entity_id: *entity_id, position: *position },
                );
            },
            NetworkMessage::ProjectileHit { position, damage } => {
                events.push(ClientEvent::HitEffect { position: *position, damage: *damage });
            },
            _ => (),
        }
        proof {
            if events@.len() == 0 {
                assert(events@ =~= Seq::<ClientEvent>::empty());
            }
            if events@.len() == 1 {
                assert(events@ =~= seq![events@[0]]);
            }
            if events@.len() == 2 {
                assert(events@ =~= seq![events@[0], events@[1]]);
            }
        }
        events
    }

    /// Receive raw channel bytes: decode them, handle what decodes, and
    /// drop what does not — a malformed message costs nothing but itself.
    pub fn handle_bytes(&mut self, bytes: &Vec<u8>) -> (events: Vec<ClientEvent>)
        requires
            old(self).wf(),
            old(self).next_handle < 0xffff_ffff_ffff_ffffu64,
        ensures
            final(self).wf(),
            final(self).our_client_id == old(self).our_client_id,
            final(self).controller == old(self).controller,
            forall|m: NetworkMessage|
                bytes@ == #[trigger] spec_encode(m) ==> spec_handle_outcome(
                    *old(self),
                    *final(self),
                    events@,
                    m,
                ),
            (forall|m: NetworkMessage| bytes@ != #[trigger] spec_encode(m)) ==> spec_core_unchanged(
                *old(self),
                *final(self),
            ) && events@ == Seq::<ClientEvent>::empty(),
    {
        match decode_message(bytes) {
            Some(m) => {
                let events = self.handle_message(&m);
                proof {
                    assert forall|m2: NetworkMessage|
                        bytes@ == #[trigger] spec_encode(m2) implies m2 == m by {
                        crate::codec::lemma_encode_injective(m2, m);
                    }
                }
                events
            },
            None => Vec::new(),
        }
    }
}

/// A body carried through a run of inputs, each for one tick delta: the
/// fold of [`spec_step`] over the sequence, oldest first.
pub open spec fn spec_replay(
    body: BodyState,
    ctrl: PlayerController,
    inputs: Seq<PlayerInput>,
    dt_ms: u32,
) -> BodyState
    decreases inputs.len(),
{
    if inputs.len() == 0 {
        body
    } else {
        spec_step(spec_replay(body, ctrl, inputs.drop_last(), dt_ms), ctrl, inputs.last(), dt_ms)
    }
}

impl ClientWorld {
    /// Re-apply every input the server has not acknowledged yet on top of
    /// the local player's state, oldest first, one tick delta each.
    ///
    /// Called right after a reconciliation snap, this carries the snapped
    /// authoritative state forward through the inputs still in flight, so
    /// the correction does not also discard the player's most recent
    /// intent. Without a local player nothing moves.
    pub fn replay_unacknowledged(&mut self, dt_ms: u32)
        requires
            old(self).wf(),
        ensures
            final(self).wf(),
            match old(self).local {
                Some(l) => final(self).local == Some(
                    LocalPlayer {
                        body: spec_replay(l.body, old(self).controller, old(self).history@, dt_ms),
                        ..l
                    },
                ),
                None => final(self).local == old(self).local,
            },
            final(self).id_map == old(self).id_map,
            final(self).history == old(self).history,
            final(self).our_client_id == old(self).our_client_id,
            final(self).controller == old(self).controller,
            final(self).next_handle == old(self).next_handle,
    {
        let l = match &self.local {
            Some(l) => *l,
            None => {
                return ;
            },
        };
        let mut body = l.body;
        let n = self.history.len();
        let mut i: usize = 0;
        while i < n
            invariant
                i <= n,
                n == self.history@.len(),
                self.wf(),
                body.wf(),
                body == spec_replay(l.body, self.controller, self.history@.subrange(0, i as int), dt_ms),
            decreases n - i,
        {
            let input = self.history.entry_at(i);
            proof {
                assert(self.history@[i as int].wf());
            }
            body = simulation_step(&body, &self.controller, &input, dt_ms);
            proof {
                let pre = self.history@.subrange(0, i as int);
                let cur = self.history@.subrange(0, i as int + 1);
                assert(cur.drop_last() =~= pre);
                assert(cur.last() == input);
            }
            i = i + 1;
        }
        proof {
            assert(self.history@.subrange(0, n as int) =~= self.history@);
        }
        self.local = Some(LocalPlayer { body, ..l });
    }
}

} // verus!
