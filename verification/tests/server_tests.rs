use netsync::codec::encode_message;
use netsync::combat::PlayerHealth;
use netsync::protocol::{
    NetworkMessage, PlayerInput, PlayerState, Vec2Fix, Vec3Fix, WeaponType,
};
use netsync::server::{OutboundMessage, Recipient, ServerPlayer, ServerWorld};
use netsync::sim::{BodyState, GROUND_HEIGHT};

fn forward_input(seq: u32) -> PlayerInput {
    PlayerInput {
        move_direction: Vec2Fix { x: 0, y: 1000 },
        jump: false,
        yaw: 0,
        pitch: 0,
        sequence_number: seq,
    }
}

#[test]
fn first_connect_spawns_and_announces() {
    let mut w = ServerWorld::new();
    let msgs = w.connect(7);
    assert_eq!(w.players.len(), 1);
    assert_eq!(w.players[0].client_id, 7);
    assert_eq!(w.players[0].entity_id, 1);
    assert_eq!(w.players[0].body.position, Vec3Fix { x: 0, y: 2000, z: 0 });
    assert_eq!(w.players[0].health.current, 100_000);
    assert_eq!(
        msgs,
        vec![OutboundMessage {
            recipient: Recipient::All,
            message: NetworkMessage::PlayerConnected { entity_id: 1, client_id: 7 },
        }]
    );
}

#[test]
fn second_connect_receives_the_roster() {
    let mut w = ServerWorld::new();
    w.connect(7);
    let msgs = w.connect(9);
    assert_eq!(w.players.len(), 2);
    assert_eq!(w.players[1].entity_id, 2);
    assert_eq!(msgs.len(), 3);
    assert_eq!(
        msgs[0],
        OutboundMessage {
            recipient: Recipient::One(9),
            message: NetworkMessage::PlayerConnected { entity_id: 1, client_id: 7 },
        }
    );
    assert_eq!(
        msgs[1],
        OutboundMessage {
            recipient: Recipient::One(9),
            message: NetworkMessage::PlayerStateUpdate(PlayerState {
                entity_id: 1,
                position: Vec3Fix { x: 0, y: 2000, z: 0 },
                velocity: Vec3Fix { x: 0, y: 0, z: 0 },
                yaw: 0,
                sequence_number: 0,
            }),
        }
    );
    assert_eq!(
        msgs[2],
        OutboundMessage {
            recipient: Recipient::All,
            message: NetworkMessage::PlayerConnected { entity_id: 2, client_id: 9 },
        }
    );
}

#[test]
fn duplicate_connect_is_ignored() {
    let mut w = ServerWorld::new();
    w.connect(7);
    let msgs = w.connect(7);
    assert_eq!(w.players.len(), 1);
    assert!(msgs.is_empty());
}

#[test]
fn disconnect_removes_and_announces() {
    let mut w = ServerWorld::new();
    w.connect(7);
    w.connect(9);
    let msgs = w.disconnect(7);
    assert_eq!(w.players.len(), 1);
    assert_eq!(w.players[0].client_id, 9);
    assert_eq!(
        msgs,
        vec![OutboundMessage {
            recipient: Recipient::All,
            message: NetworkMessage::PlayerDisconnected { entity_id: 1 },
        }]
    );
}

#[test]
fn late_inputs_from_a_disconnected_client_are_ignored() {
    let mut w = ServerWorld::new();
    w.connect(7);
    w.connect(9);
    w.disconnect(7);
    let before = w.players.clone();
    // a buffered input from the departed client arrives this same tick
    w.apply_input(7, &forward_input(3), 16);
    assert_eq!(w.players, before);
    // its buffered shot is equally harmless
    let (hit, msgs) = w.process_shot(
        7,
        &Vec3Fix { x: 0, y: 0, z: 0 },
        &Vec3Fix { x: 0, y: 0, z: -1000 },
        WeaponType::Rifle,
    );
    assert_eq!(hit, None);
    assert!(msgs.is_empty());
    assert_eq!(w.players, before);
}

#[test]
fn apply_input_steps_the_player() {
    let mut w = ServerWorld::new();
    w.connect(7);
    w.apply_input(7, &forward_input(12), 100);
    let p = &w.players[0];
    // forward at 5 units/s for 100 ms from the spawn point, falling
    assert_eq!(p.body.position, Vec3Fix { x: 0, y: 1820, z: -500 });
    assert_eq!(p.body.velocity, Vec3Fix { x: 0, y: -1800, z: -5000 });
    assert_eq!(p.last_input_seq, 12);
}

#[test]
fn out_of_bounds_input_is_dropped() {
    let mut w = ServerWorld::new();
    w.connect(7);
    let before = w.players.clone();
    let bad = PlayerInput {
        move_direction: Vec2Fix { x: 5000, y: 5000 },
        jump: false,
        yaw: 0,
        pitch: 0,
        sequence_number: 1,
    };
    w.apply_input(7, &bad, 100);
    assert_eq!(w.players, before);
}

#[test]
fn channel0_bytes_drive_the_simulation() {
    let mut w = ServerWorld::new();
    w.connect(7);
    let bytes = encode_message(&NetworkMessage::PlayerInput(forward_input(12)));
    w.handle_channel0_message(7, &bytes, 100);
    assert_eq!(w.players[0].body.position, Vec3Fix { x: 0, y: 1820, z: -500 });
    // garbage bytes change nothing
    let before = w.players.clone();
    w.handle_channel0_message(7, &vec![1, 2, 3], 100);
    assert_eq!(w.players, before);
    // a well-formed non-input message on channel 0 changes nothing either
    let stray = encode_message(&NetworkMessage::PlayerDisconnected { entity_id: 1 });
    w.handle_channel0_message(7, &stray, 100);
    assert_eq!(w.players, before);
}

fn world_with_target() -> ServerWorld {
    let mut w = ServerWorld::new();
    w.connect(1);
    w.connect(2);
    // stand the second player ten units down the shooter's line of fire
    w.players[1].body.position = Vec3Fix { x: 0, y: 0, z: -10_000 };
    w
}

#[test]
fn rifle_shot_hits_and_broadcasts_damage() {
    let mut w = world_with_target();
    let (hit, msgs) = w.process_shot(
        1,
        &Vec3Fix { x: 0, y: 0, z: 0 },
        &Vec3Fix { x: 0, y: 0, z: -1000 },
        WeaponType::Rifle,
    );
    assert_eq!(hit, Some(1));
    assert_eq!(w.players[1].health.current, 65_000);
    assert_eq!(msgs.len(), 2);
    assert_eq!(
        msgs[0],
        OutboundMessage {
            recipient: Recipient::All,
            message: NetworkMessage::HealthUpdate {
                entity_id: 2,
                current_health: 65_000,
                max_health: 100_000,
            },
        }
    );
    assert_eq!(
        msgs[1],
        OutboundMessage {
            recipient: Recipient::All,
            message: NetworkMessage::ProjectileHit {
                position: Vec3Fix { x: 0, y: 0, z: -10_000 },
                damage: 35_000,
            },
        }
    );
}

#[test]
fn shot_with_no_eligible_target_misses() {
    let mut w = world_with_target();
    let before = w.players.clone();
    // fire the other way
    let (hit, msgs) = w.process_shot(
        1,
        &Vec3Fix { x: 0, y: 0, z: 0 },
        &Vec3Fix { x: 0, y: 0, z: 1000 },
        WeaponType::Rifle,
    );
    assert_eq!(hit, None);
    assert!(msgs.is_empty());
    assert_eq!(w.players, before);
}

#[test]
fn shotgun_range_is_too_short_for_a_distant_target() {
    let mut w = world_with_target();
    w.players[1].body.position = Vec3Fix { x: 0, y: 0, z: -20_000 };
    let (hit, _) = w.process_shot(
        1,
        &Vec3Fix { x: 0, y: 0, z: 0 },
        &Vec3Fix { x: 0, y: 0, z: -1000 },
        WeaponType::Shotgun,
    );
    assert_eq!(hit, None);
}

#[test]
fn channel1_bytes_resolve_shots() {
    let mut w = world_with_target();
    let bytes = encode_message(&NetworkMessage::PlayerShoot {
        origin: Vec3Fix { x: 0, y: 0, z: 0 },
        direction: Vec3Fix { x: 0, y: 0, z: -1000 },
        weapon_type: WeaponType::Rifle,
    });
    let (hit, msgs) = w.handle_channel1_message(1, &bytes);
    assert_eq!(hit, Some(1));
    assert_eq!(msgs.len(), 2);
    // garbage on the shot channel is dropped
    let before = w.players.clone();
    let (hit, msgs) = w.handle_channel1_message(1, &vec![9, 9]);
    assert_eq!(hit, None);
    assert!(msgs.is_empty());
    assert_eq!(w.players, before);
}

#[test]
fn dead_players_respawn_at_the_spawn_point() {
    let mut w = ServerWorld::new();
    w.connect(7);
    w.players[0].health = PlayerHealth { current: 0, max: 100_000 };
    w.players[0].body.position = Vec3Fix { x: 4000, y: 900, z: -3000 };
    let msgs = w.check_deaths();
    assert_eq!(w.players[0].health.current, 100_000);
    assert_eq!(w.players[0].body.position, Vec3Fix { x: 0, y: 2000, z: 0 });
    assert_eq!(msgs.len(), 2);
    assert_eq!(
        msgs[0],
        OutboundMessage {
            recipient: Recipient::All,
            message: NetworkMessage::PlayerDied { entity_id: 1, killer_id: None },
        }
    );
    assert_eq!(
        msgs[1],
        OutboundMessage {
            recipient: Recipient::All,
            message: NetworkMessage::PlayerRespawn {
                entity_id: 1,
                position: Vec3Fix { x: 0, y: 2000, z: 0 },
            },
        }
    );
    // a live player produces no announcements
    let msgs = w.check_deaths();
    assert!(msgs.is_empty());
}

#[test]
fn ground_clamp_pass_grounds_low_players() {
    let mut w = ServerWorld::new();
    w.connect(7);
    w.players[0].body.position.y = 500;
    w.players[0].body.velocity.y = -4000;
    w.ground_clamp_players();
    let b = &w.players[0].body;
    assert_eq!(b.position.y, GROUND_HEIGHT);
    assert_eq!(b.velocity.y, 0);
    assert!(b.grounded);
}

#[test]
fn snapshot_covers_every_player_and_the_cube() {
    let mut w = ServerWorld::new();
    w.connect(7);
    w.connect(9);
    let msgs = w.snapshot_messages();
    assert_eq!(msgs.len(), 3);
    assert!(matches!(
        msgs[0].message,
        NetworkMessage::PlayerStateUpdate(PlayerState { entity_id: 1, .. })
    ));
    assert!(matches!(
        msgs[1].message,
        NetworkMessage::PlayerStateUpdate(PlayerState { entity_id: 2, .. })
    ));
    assert_eq!(
        msgs[2].message,
        NetworkMessage::RigidBodyUpdate {
            entity_id: 0,
            position: Vec3Fix { x: 0, y: 5000, z: 0 },
            yaw: 0,
        }
    );
}

#[test]
fn snapshot_echoes_the_last_simulated_sequence_number() {
    let mut w = ServerWorld::new();
    w.connect(7);
    w.apply_input(7, &forward_input(41), 16);
    let msgs = w.snapshot_messages();
    match msgs[0].message {
        NetworkMessage::PlayerStateUpdate(st) => assert_eq!(st.sequence_number, 41),
        _ => panic!("expected a state update"),
    }
}

#[test]
fn cube_physics_advances_each_tick() {
    let mut w = ServerWorld::new();
    w.step_physics_bodies(1000);
    assert_eq!(w.cube.position.y, 1000);
    assert_eq!(w.cube.velocity.y, 6867);
}

#[test]
fn direct_world_construction_is_possible() {
    // the world is plain data: a test can stage any consistent state
    let w = ServerWorld {
        players: vec![ServerPlayer {
            client_id: 5,
            entity_id: 1,
            body: BodyState {
                position: Vec3Fix { x: 0, y: 900, z: 0 },
                velocity: Vec3Fix { x: 0, y: 0, z: 0 },
                yaw: 0,
                grounded: true,
            },
            health: PlayerHealth { current: 100_000, max: 100_000 },
            last_input_seq: 0,
        }],
        controller: ServerWorld::new().controller,
        cube: ServerWorld::new().cube,
        cube_entity_id: 0,
        next_entity_id: 2,
    };
    assert_eq!(w.players[0].entity_id, 1);
}
