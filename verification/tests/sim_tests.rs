use netsync::client::ClientWorld;
use netsync::protocol::{NetworkMessage, PlayerInput, Vec2Fix, Vec3Fix};
use netsync::server::ServerWorld;
use netsync::sim::{
    rigid_body_step, simulation_step, BodyState, PlayerController, RigidBodyState, GROUND_HEIGHT,
};

fn grounded_body() -> BodyState {
    BodyState {
        position: Vec3Fix { x: 0, y: GROUND_HEIGHT, z: 0 },
        velocity: Vec3Fix { x: 0, y: 0, z: 0 },
        yaw: 0,
        grounded: true,
    }
}

fn input(mx: i64, my: i64, jump: bool, yaw: i64) -> PlayerInput {
    PlayerInput {
        move_direction: Vec2Fix { x: mx, y: my },
        jump,
        yaw,
        pitch: 0,
        sequence_number: 0,
    }
}

#[test]
fn step_is_deterministic() {
    let b = grounded_body();
    let ctrl = PlayerController::standard();
    let i = input(707, 707, true, 1234);
    let r1 = simulation_step(&b, &ctrl, &i, 16);
    let r2 = simulation_step(&b, &ctrl, &i, 16);
    assert_eq!(r1, r2);
}

#[test]
fn forward_input_moves_forward() {
    // yaw 0 faces negative z; forward intent at 5 units/s for 100 ms.
    let b = grounded_body();
    let ctrl = PlayerController::standard();
    let r = simulation_step(&b, &ctrl, &input(0, 1000, false, 0), 100);
    assert_eq!(r.position, Vec3Fix { x: 0, y: GROUND_HEIGHT, z: -500 });
    assert_eq!(r.velocity, Vec3Fix { x: 0, y: 0, z: -5000 });
    assert!(r.grounded);
    assert_eq!(r.yaw, 0);
}

#[test]
fn quarter_turn_strafes_the_world_axes() {
    // yaw a quarter turn left: forward intent now moves along negative x.
    let b = grounded_body();
    let ctrl = PlayerController::standard();
    let r = simulation_step(&b, &ctrl, &input(0, 1000, false, 1571), 100);
    assert_eq!(r.position, Vec3Fix { x: -500, y: GROUND_HEIGHT, z: 0 });
    assert_eq!(r.velocity.x, -5000);
    assert_eq!(r.velocity.z, 0);
}

#[test]
fn zero_input_means_no_horizontal_motion() {
    let b = grounded_body();
    let ctrl = PlayerController::standard();
    let r = simulation_step(&b, &ctrl, &input(0, 0, false, 0), 100);
    assert_eq!(r.velocity.x, 0);
    assert_eq!(r.velocity.z, 0);
    assert_eq!(r.position.x, 0);
    assert_eq!(r.position.z, 0);
}

#[test]
fn ground_clamp_holds_a_grounded_body() {
    let b = grounded_body();
    let ctrl = PlayerController::standard();
    let r = simulation_step(&b, &ctrl, &input(0, 0, false, 0), 100);
    assert_eq!(r.position.y, GROUND_HEIGHT);
    assert_eq!(r.velocity.y, 0);
    assert!(r.grounded);
    // and again: the clamp is idempotent.
    let r2 = simulation_step(&r, &ctrl, &input(0, 0, false, 0), 100);
    assert_eq!(r2.position.y, GROUND_HEIGHT);
}

#[test]
fn jump_assigns_the_jump_velocity_once() {
    let b = grounded_body();
    let ctrl = PlayerController::standard();
    let r = simulation_step(&b, &ctrl, &input(0, 0, true, 0), 100);
    // 7.5 units/s up, minus 100 ms of gravity, integrated.
    assert_eq!(r.velocity.y, 5700);
    assert_eq!(r.position.y, GROUND_HEIGHT + 570);
    assert!(!r.grounded);
    // airborne: a second jump press is ignored, gravity keeps integrating.
    let r2 = simulation_step(&r, &ctrl, &input(0, 0, true, 0), 100);
    assert_eq!(r2.velocity.y, 3900);
}

#[test]
fn falling_body_lands_on_the_ground() {
    let b = BodyState {
        position: Vec3Fix { x: 0, y: 2000, z: 0 },
        velocity: Vec3Fix { x: 0, y: 0, z: 0 },
        yaw: 0,
        grounded: false,
    };
    let ctrl = PlayerController::standard();
    let mut cur = b;
    for _ in 0..20 {
        cur = simulation_step(&cur, &ctrl, &input(0, 0, false, 0), 100);
    }
    assert_eq!(cur.position.y, GROUND_HEIGHT);
    assert!(cur.grounded);
}

#[test]
fn cube_falls_and_bounces_with_restitution() {
    let cube = RigidBodyState {
        position: Vec3Fix { x: 0, y: 5000, z: 0 },
        velocity: Vec3Fix { x: 0, y: 0, z: 0 },
        gravity: -9810,
        bounciness: 700,
        ground_level: 1000,
    };
    let r = rigid_body_step(&cube, 1000);
    // one full second: velocity -9.81, position clamped to the ground,
    // bounce reverses 70 percent of the speed.
    assert_eq!(r.position.y, 1000);
    assert_eq!(r.velocity.y, 6867);
}

#[test]
fn slow_cube_settles_to_rest() {
    let cube = RigidBodyState {
        position: Vec3Fix { x: 0, y: 1000, z: 0 },
        velocity: Vec3Fix { x: 0, y: 0, z: 0 },
        gravity: -9810,
        bounciness: 700,
        ground_level: 1000,
    };
    let r = rigid_body_step(&cube, 10);
    // 10 ms of gravity gives 98 thousandths of speed; the bounce of that is
    // 68, under the settle threshold, so the cube comes to rest.
    assert_eq!(r.position.y, 1000);
    assert_eq!(r.velocity.y, 0);
}

#[test]
fn prediction_agrees_with_authority() {
    // the client predicting and the server simulating the same input from
    // the same state land on the same bits
    let mut server = ServerWorld::new();
    server.connect(77);

    let mut client = ClientWorld::new(77);
    client.handle_message(&NetworkMessage::PlayerConnected { entity_id: 1, client_id: 77 });
    // the client's spawn-time state update aligns the starting point
    client.handle_message(&NetworkMessage::PlayerStateUpdate(
        match server.snapshot_messages()[0].message {
            NetworkMessage::PlayerStateUpdate(st) => st,
            _ => panic!("expected a state update"),
        },
    ));
    assert_eq!(client.local.unwrap().body.position, server.players[0].body.position);

    let i = input(707, 707, true, 1234);
    let (_seq, _msg) = client.record_input(&i);
    client.predict(16);
    server.apply_input(77, &PlayerInput { sequence_number: 0, ..i }, 16);

    let predicted = client.local.unwrap().body;
    let authoritative = server.players[0].body;
    assert_eq!(predicted, authoritative);
}
