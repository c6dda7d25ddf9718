use netsync::client::{build_input, ClientEvent, ClientWorld};
use netsync::codec::encode_message;
use netsync::protocol::{NetworkMessage, PlayerState, Vec3Fix};
use netsync::sim::GROUND_HEIGHT;

fn connected_client() -> ClientWorld {
    let mut c = ClientWorld::new(77);
    let events = c.handle_message(&NetworkMessage::PlayerConnected { entity_id: 5, client_id: 77 });
    assert_eq!(events, vec![ClientEvent::SpawnLocalPlayer { handle: 1, entity_id: 5 }]);
    c
}

#[test]
fn own_connect_spawns_the_local_player() {
    let c = connected_client();
    let l = c.local.unwrap();
    assert_eq!(l.entity_id, 5);
    assert_eq!(l.handle, 1);
    assert_eq!(c.id_map.get(5), Some(1));
}

#[test]
fn foreign_connect_spawns_a_remote_player() {
    let mut c = connected_client();
    let events = c.handle_message(&NetworkMessage::PlayerConnected { entity_id: 6, client_id: 88 });
    assert_eq!(events, vec![ClientEvent::SpawnRemotePlayer { handle: 2, entity_id: 6 }]);
    assert_eq!(c.id_map.get(6), Some(2));
    assert_eq!(c.local.unwrap().entity_id, 5);
}

#[test]
fn prediction_and_reconciliation_round() {
    // record input 0 (straight ahead), predict, then take the server's word.
    let mut c = connected_client();
    let input = build_input(true, false, false, false, false, 0, 0);
    let (seq, msg) = c.record_input(&input);
    assert_eq!(seq, 0);
    assert!(matches!(msg, NetworkMessage::PlayerInput(i) if i.sequence_number == 0));
    assert_eq!(c.history.len(), 1);

    c.predict(100);
    let predicted = c.local.unwrap().body;
    // motion showed immediately: the player moved forward and grounded
    assert_eq!(predicted.position, Vec3Fix { x: 0, y: GROUND_HEIGHT, z: -500 });

    // the authoritative answer puts the player somewhere else entirely
    let authoritative = Vec3Fix { x: 1000, y: GROUND_HEIGHT, z: 2000 };
    let events = c.handle_message(&NetworkMessage::PlayerStateUpdate(PlayerState {
        entity_id: 5,
        position: authoritative,
        velocity: Vec3Fix { x: 0, y: 0, z: 0 },
        yaw: 0,
        sequence_number: 0,
    }));
    // the acknowledged input is gone and the position is exactly the server's
    assert_eq!(c.history.len(), 0);
    assert_eq!(c.local.unwrap().body.position, authoritative);
    assert_eq!(
        events,
        vec![ClientEvent::UpdateTransform { handle: 1, position: authoritative, yaw: 0 }]
    );
}

#[test]
fn reconciliation_keeps_unacknowledged_inputs() {
    let mut c = connected_client();
    let input = build_input(true, false, false, false, false, 0, 0);
    for _ in 0..4 {
        c.record_input(&input);
    }
    c.handle_message(&NetworkMessage::PlayerStateUpdate(PlayerState {
        entity_id: 5,
        position: Vec3Fix { x: 0, y: GROUND_HEIGHT, z: 0 },
        velocity: Vec3Fix { x: 0, y: 0, z: 0 },
        yaw: 0,
        sequence_number: 1,
    }));
    assert_eq!(c.history.len(), 2);
    assert_eq!(c.history.entry_at(0).sequence_number, 2);
    assert_eq!(c.history.entry_at(1).sequence_number, 3);
}

#[test]
fn unseen_rigid_body_spawns_once_then_updates() {
    let mut c = connected_client();
    let p1 = Vec3Fix { x: 0, y: 4000, z: 0 };
    let events = c.handle_message(&NetworkMessage::RigidBodyUpdate {
        entity_id: 42,
        position: p1,
        yaw: 0,
    });
    assert_eq!(events, vec![ClientEvent::SpawnRigidBody { handle: 2, position: p1, yaw: 0 }]);
    assert_eq!(c.id_map.get(42), Some(2));

    let p2 = Vec3Fix { x: 0, y: 3500, z: 0 };
    let events = c.handle_message(&NetworkMessage::RigidBodyUpdate {
        entity_id: 42,
        position: p2,
        yaw: 0,
    });
    // in place: same handle, no second spawn
    assert_eq!(events, vec![ClientEvent::UpdateTransform { handle: 2, position: p2, yaw: 0 }]);
    assert_eq!(c.id_map.len(), 2);
}

#[test]
fn remote_state_updates_only_move_the_remote() {
    let mut c = connected_client();
    c.handle_message(&NetworkMessage::PlayerConnected { entity_id: 6, client_id: 88 });
    let before_history = c.history.len();
    let pos = Vec3Fix { x: 9000, y: GROUND_HEIGHT, z: 0 };
    let events = c.handle_message(&NetworkMessage::PlayerStateUpdate(PlayerState {
        entity_id: 6,
        position: pos,
        velocity: Vec3Fix { x: 0, y: 0, z: 0 },
        yaw: 500,
        sequence_number: 9,
    }));
    assert_eq!(events, vec![ClientEvent::UpdateTransform { handle: 2, position: pos, yaw: 500 }]);
    // a remote update acknowledges nothing and never touches the local body
    assert_eq!(c.history.len(), before_history);
    assert_eq!(c.local.unwrap().body.position, Vec3Fix { x: 0, y: 0, z: 0 });
}

#[test]
fn disconnect_despawns_and_unmaps() {
    let mut c = connected_client();
    c.handle_message(&NetworkMessage::PlayerConnected { entity_id: 6, client_id: 88 });
    let events = c.handle_message(&NetworkMessage::PlayerDisconnected { entity_id: 6 });
    assert_eq!(events, vec![ClientEvent::Despawn { handle: 2 }]);
    assert_eq!(c.id_map.get(6), None);
    // a second disconnect for the same entity is harmless
    let events = c.handle_message(&NetworkMessage::PlayerDisconnected { entity_id: 6 });
    assert!(events.is_empty());
}

#[test]
fn health_updates_reach_only_the_local_ui() {
    let mut c = connected_client();
    c.handle_message(&NetworkMessage::PlayerConnected { entity_id: 6, client_id: 88 });
    let events = c.handle_message(&NetworkMessage::HealthUpdate {
        entity_id: 5,
        current_health: 65_000,
        max_health: 100_000,
    });
    assert_eq!(events, vec![ClientEvent::HealthChanged { current: 65_000, max: 100_000 }]);
    let events = c.handle_message(&NetworkMessage::HealthUpdate {
        entity_id: 6,
        current_health: 30_000,
        max_health: 100_000,
    });
    assert!(events.is_empty());
}

#[test]
fn feedback_messages_become_events() {
    let mut c = connected_client();
    let events = c.handle_message(&NetworkMessage::PlayerDied { entity_id: 5, killer_id: Some(9) });
    assert_eq!(events, vec![ClientEvent::Died { entity_id: 5, killer_id: Some(9) }]);
    let pos = Vec3Fix { x: 0, y: 2000, z: 0 };
    let events = c.handle_message(&NetworkMessage::PlayerRespawn { entity_id: 5, position: pos });
    assert_eq!(events, vec![ClientEvent::Respawned { entity_id: 5, position: pos }]);
    let events = c.handle_message(&NetworkMessage::ProjectileHit { position: pos, damage: 35_000 });
    assert_eq!(events, vec![ClientEvent::HitEffect { position: pos, damage: 35_000 }]);
}

#[test]
fn raw_bytes_are_decoded_or_dropped() {
    let mut c = ClientWorld::new(77);
    let bytes = encode_message(&NetworkMessage::PlayerConnected { entity_id: 5, client_id: 77 });
    let events = c.handle_bytes(&bytes);
    assert_eq!(events, vec![ClientEvent::SpawnLocalPlayer { handle: 1, entity_id: 5 }]);
    // malformed bytes are dropped without effect
    let before = c.id_map.len();
    let events = c.handle_bytes(&vec![200, 1, 2, 3]);
    assert!(events.is_empty());
    assert_eq!(c.id_map.len(), before);
}

#[test]
fn out_of_bounds_state_update_is_dropped() {
    let mut c = connected_client();
    c.record_input(&build_input(true, false, false, false, false, 0, 0));
    let events = c.handle_message(&NetworkMessage::PlayerStateUpdate(PlayerState {
        entity_id: 5,
        position: Vec3Fix { x: i64::MAX, y: 0, z: 0 },
        velocity: Vec3Fix { x: 0, y: 0, z: 0 },
        yaw: 0,
        sequence_number: 0,
    }));
    assert!(events.is_empty());
    // nothing was acknowledged and nothing snapped
    assert_eq!(c.history.len(), 1);
    assert_eq!(c.local.unwrap().body.position, Vec3Fix { x: 0, y: 0, z: 0 });
}

#[test]
fn replay_carries_the_snap_through_pending_inputs() {
    let mut c = connected_client();
    let input = build_input(true, false, false, false, false, 0, 0);
    for _ in 0..3 {
        c.record_input(&input);
    }
    // the server has only seen input 0; snap to its word
    let authoritative = Vec3Fix { x: 1000, y: GROUND_HEIGHT, z: 2000 };
    c.handle_message(&NetworkMessage::PlayerStateUpdate(PlayerState {
        entity_id: 5,
        position: authoritative,
        velocity: Vec3Fix { x: 0, y: 0, z: 0 },
        yaw: 0,
        sequence_number: 0,
    }));
    assert_eq!(c.history.len(), 2);
    // re-apply the two unacknowledged inputs on top of the snap
    c.replay_unacknowledged(100);
    let body = c.local.unwrap().body;
    assert_eq!(body.position, Vec3Fix { x: 1000, y: GROUND_HEIGHT, z: 1000 });
    // the history itself is untouched: those inputs are still in flight
    assert_eq!(c.history.len(), 2);
}

#[test]
fn replay_without_pending_inputs_changes_nothing() {
    let mut c = connected_client();
    let before = c.local.unwrap().body;
    c.replay_unacknowledged(100);
    assert_eq!(c.local.unwrap().body, before);
}
