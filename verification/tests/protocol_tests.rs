use netsync::client::build_input;
use netsync::config::GameConfig;
use netsync::fixed::{clamp_fix, cos_fix, fix_mul, isqrt, normalize2, sin_fix, FIX_LIMIT};
use netsync::protocol::{channel_of, Channel, NetworkMessage, Vec3Fix, WeaponType, PROTOCOL_ID};

#[test]
fn channels_have_their_wire_numbers() {
    assert_eq!(Channel::Reliable.id(), 0);
    assert_eq!(Channel::Unreliable.id(), 1);
}

#[test]
fn only_shots_ride_the_unreliable_channel() {
    let shot = NetworkMessage::PlayerShoot {
        origin: Vec3Fix { x: 0, y: 0, z: 0 },
        direction: Vec3Fix { x: 0, y: 0, z: -1000 },
        weapon_type: WeaponType::Pistol,
    };
    assert_eq!(channel_of(&shot), Channel::Unreliable);
    let input = NetworkMessage::PlayerDisconnected { entity_id: 1 };
    assert_eq!(channel_of(&input), Channel::Reliable);
    assert_eq!(PROTOCOL_ID, 7);
}

#[test]
fn default_config_is_local_development() {
    let c = GameConfig::get();
    assert_eq!(c.server_addr, "127.0.0.1");
    assert_eq!(c.server_port, 5000);
}

#[test]
fn explicit_config_rejects_empty_values() {
    assert!(GameConfig::from_values(String::from("example.test"), 4000).is_some());
    assert!(GameConfig::from_values(String::new(), 4000).is_none());
    assert!(GameConfig::from_values(String::from("example.test"), 0).is_none());
}

#[test]
fn diagonal_input_is_normalized() {
    let i = build_input(true, false, false, true, false, 0, 0);
    assert_eq!(i.move_direction.x, 707);
    assert_eq!(i.move_direction.y, 707);
}

#[test]
fn opposed_keys_cancel() {
    let i = build_input(true, true, true, true, false, 0, 0);
    assert_eq!(i.move_direction.x, 0);
    assert_eq!(i.move_direction.y, 0);
    let i = build_input(false, true, true, false, true, 100, -200);
    assert_eq!(i.move_direction.x, -707);
    assert_eq!(i.move_direction.y, -707);
    let i = build_input(false, true, false, false, false, 0, 0);
    assert_eq!(i.move_direction.x, 0);
    assert_eq!(i.move_direction.y, -1000);
    let i = build_input(false, false, true, false, true, 100, -200);
    assert_eq!(i.move_direction.x, -1000);
    assert_eq!(i.move_direction.y, 0);
    assert!(i.jump);
    assert_eq!(i.yaw, 100);
    assert_eq!(i.pitch, -200);
}

#[test]
fn integer_square_root_brackets_its_argument() {
    assert_eq!(isqrt(0), 0);
    assert_eq!(isqrt(1), 1);
    assert_eq!(isqrt(999_999), 999);
    assert_eq!(isqrt(1_000_000), 1000);
    assert_eq!(isqrt(2_000_000), 1414);
}

#[test]
fn sine_and_cosine_hit_the_cardinal_points() {
    assert_eq!(sin_fix(0), 0);
    assert_eq!(sin_fix(1571), 1000);
    assert_eq!(sin_fix(3142), 0);
    assert_eq!(sin_fix(4713), -1000);
    assert_eq!(cos_fix(0), 1000);
    assert_eq!(cos_fix(1571), 0);
    // a full turn comes back around
    assert_eq!(sin_fix(6284 + 1571), 1000);
    assert_eq!(sin_fix(-4713), 1000);
}

#[test]
fn fixed_point_multiply_truncates_toward_zero() {
    assert_eq!(fix_mul(1500, 2000), 3000);
    assert_eq!(fix_mul(-1500, 2000), -3000);
    assert_eq!(fix_mul(1, 999), 0);
    assert_eq!(fix_mul(-1, 999), 0);
}

#[test]
fn clamp_respects_the_world_bound() {
    assert_eq!(clamp_fix(0), 0);
    assert_eq!(clamp_fix(FIX_LIMIT + 5), FIX_LIMIT);
    assert_eq!(clamp_fix(-FIX_LIMIT - 5), -FIX_LIMIT);
}

#[test]
fn normalize_makes_unit_vectors_and_keeps_zero() {
    assert_eq!(normalize2(0, 0), (0, 0));
    assert_eq!(normalize2(2000, 0), (1000, 0));
    assert_eq!(normalize2(0, -500), (0, -1000));
    let (x, z) = normalize2(300_000, 400_000);
    assert_eq!((x, z), (600, 800));
}
