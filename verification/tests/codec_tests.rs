use netsync::codec::{decode_message, encode_message};
use netsync::protocol::{
    NetworkMessage, PlayerInput, PlayerState, Vec2Fix, Vec3Fix, WeaponType,
};

fn sample_input() -> PlayerInput {
    PlayerInput {
        move_direction: Vec2Fix { x: -707, y: 707 },
        jump: true,
        yaw: 1571,
        pitch: -300,
        sequence_number: 41,
    }
}

fn round_trips(msg: NetworkMessage) {
    let bytes = encode_message(&msg);
    assert_eq!(decode_message(&bytes), Some(msg));
}

#[test]
fn round_trip_player_input() {
    round_trips(NetworkMessage::PlayerInput(sample_input()));
}

#[test]
fn round_trip_player_state_update() {
    round_trips(NetworkMessage::PlayerStateUpdate(PlayerState {
        entity_id: 7,
        position: Vec3Fix { x: 1000, y: 900, z: -2000 },
        velocity: Vec3Fix { x: 0, y: -1800, z: 5000 },
        yaw: -3000,
        sequence_number: 123,
    }));
}

#[test]
fn round_trip_rigid_body_update() {
    round_trips(NetworkMessage::RigidBodyUpdate {
        entity_id: 42,
        position: Vec3Fix { x: 0, y: 5000, z: 0 },
        yaw: 0,
    });
}

#[test]
fn round_trip_membership_messages() {
    round_trips(NetworkMessage::PlayerConnected { entity_id: 3, client_id: 99 });
    round_trips(NetworkMessage::PlayerDisconnected { entity_id: 3 });
}

#[test]
fn round_trip_combat_messages() {
    round_trips(NetworkMessage::PlayerShoot {
        origin: Vec3Fix { x: 0, y: 0, z: 0 },
        direction: Vec3Fix { x: 0, y: 0, z: -1000 },
        weapon_type: WeaponType::Rifle,
    });
    round_trips(NetworkMessage::ProjectileHit {
        position: Vec3Fix { x: 0, y: 0, z: -10000 },
        damage: 35_000,
    });
    round_trips(NetworkMessage::HealthUpdate {
        entity_id: 2,
        current_health: 65_000,
        max_health: 100_000,
    });
}

#[test]
fn round_trip_death_messages() {
    round_trips(NetworkMessage::PlayerDied { entity_id: 2, killer_id: None });
    round_trips(NetworkMessage::PlayerDied { entity_id: 2, killer_id: Some(1) });
    round_trips(NetworkMessage::PlayerRespawn {
        entity_id: 2,
        position: Vec3Fix { x: 0, y: 2000, z: 0 },
    });
}

#[test]
fn encoding_is_tagged_and_fixed_length() {
    let bytes = encode_message(&NetworkMessage::PlayerConnected { entity_id: 1, client_id: 7 });
    assert_eq!(bytes.len(), 17);
    assert_eq!(bytes[0], 3);
    let bytes = encode_message(&NetworkMessage::PlayerInput(sample_input()));
    assert_eq!(bytes.len(), 38);
    assert_eq!(bytes[0], 0);
}

#[test]
fn weapon_types_encode_distinctly() {
    let mk = |w: WeaponType| NetworkMessage::PlayerShoot {
        origin: Vec3Fix { x: 0, y: 0, z: 0 },
        direction: Vec3Fix { x: 0, y: 0, z: -1000 },
        weapon_type: w,
    };
    let p = encode_message(&mk(WeaponType::Pistol));
    let r = encode_message(&mk(WeaponType::Rifle));
    let s = encode_message(&mk(WeaponType::Shotgun));
    assert_eq!(p[49], 0);
    assert_eq!(r[49], 1);
    assert_eq!(s[49], 2);
}

#[test]
fn decode_rejects_empty_and_bad_tags() {
    assert_eq!(decode_message(&vec![]), None);
    assert_eq!(decode_message(&vec![10]), None);
    assert_eq!(decode_message(&vec![255, 0, 0]), None);
}

#[test]
fn decode_rejects_wrong_length() {
    let mut bytes = encode_message(&NetworkMessage::PlayerConnected { entity_id: 1, client_id: 7 });
    bytes.push(0);
    assert_eq!(decode_message(&bytes), None);
    let bytes = encode_message(&NetworkMessage::PlayerDisconnected { entity_id: 1 });
    let truncated: Vec<u8> = bytes[..bytes.len() - 1].to_vec();
    assert_eq!(decode_message(&truncated), None);
}

#[test]
fn decode_rejects_bad_field_bytes() {
    let mut bytes = encode_message(&NetworkMessage::PlayerInput(sample_input()));
    bytes[17] = 2; // not a boolean
    assert_eq!(decode_message(&bytes), None);

    let mut bytes = encode_message(&NetworkMessage::PlayerShoot {
        origin: Vec3Fix { x: 0, y: 0, z: 0 },
        direction: Vec3Fix { x: 0, y: 0, z: -1000 },
        weapon_type: WeaponType::Pistol,
    });
    bytes[49] = 7; // not a weapon
    assert_eq!(decode_message(&bytes), None);

    let mut bytes = encode_message(&NetworkMessage::PlayerDied { entity_id: 2, killer_id: None });
    bytes[9] = 2; // not an option flag
    assert_eq!(decode_message(&bytes), None);

    let mut bytes = encode_message(&NetworkMessage::PlayerDied { entity_id: 2, killer_id: None });
    bytes[10] = 1; // absent killer with a nonzero value
    assert_eq!(decode_message(&bytes), None);
}
