use netsync::combat::{hit_scan, PlayerHealth, PlayerWeapon, Target, WeaponStats};
use netsync::protocol::{Vec3Fix, WeaponType};

fn origin() -> Vec3Fix {
    Vec3Fix { x: 0, y: 0, z: 0 }
}

fn forward() -> Vec3Fix {
    Vec3Fix { x: 0, y: 0, z: -1000 }
}

#[test]
fn weapon_stats_table() {
    let rifle = WeaponStats::from_type(WeaponType::Rifle);
    assert_eq!(rifle.damage, 35_000);
    assert_eq!(rifle.fire_rate_ms, 150);
    assert_eq!(rifle.range, 50_000);
    let pistol = WeaponStats::from_type(WeaponType::Pistol);
    assert_eq!(pistol.damage, 25_000);
    let shotgun = WeaponStats::from_type(WeaponType::Shotgun);
    assert_eq!(shotgun.damage, 60_000);
    assert_eq!(shotgun.range, 15_000);
}

#[test]
fn health_saturates_at_zero_and_max() {
    let mut h = PlayerHealth::full();
    h.take_damage(35_000);
    assert_eq!(h.current, 65_000);
    h.take_damage(90_000);
    assert_eq!(h.current, 0);
    assert!(!h.is_alive());
    h.heal(30_000);
    assert_eq!(h.current, 30_000);
    h.heal(500_000);
    assert_eq!(h.current, 100_000);
    assert!(h.is_alive());
}

#[test]
fn hit_scan_hits_a_target_dead_ahead() {
    let targets = vec![Target { entity_id: 2, position: Vec3Fix { x: 0, y: 0, z: -10_000 } }];
    let r = hit_scan(&origin(), &forward(), &targets, 1, 50_000);
    assert_eq!(r, Some(0));
}

#[test]
fn hit_scan_prefers_the_nearer_target() {
    let far = Target { entity_id: 2, position: Vec3Fix { x: 0, y: 0, z: -20_000 } };
    let near = Target { entity_id: 3, position: Vec3Fix { x: 0, y: 0, z: -10_000 } };
    let targets = vec![far, near];
    let r = hit_scan(&origin(), &forward(), &targets, 1, 50_000);
    assert_eq!(r, Some(1));
    // and in the other storage order too
    let targets = vec![near, far];
    let r = hit_scan(&origin(), &forward(), &targets, 1, 50_000);
    assert_eq!(r, Some(0));
}

#[test]
fn hit_scan_never_selects_outside_the_cone() {
    // well inside range, but at 45 degrees off the ray: cosine 0.707 < 0.95.
    let targets = vec![Target { entity_id: 2, position: Vec3Fix { x: 10_000, y: 0, z: -10_000 } }];
    assert_eq!(hit_scan(&origin(), &forward(), &targets, 1, 50_000), None);
}

#[test]
fn hit_scan_never_selects_outside_the_range() {
    let targets = vec![Target { entity_id: 2, position: Vec3Fix { x: 0, y: 0, z: -60_000 } }];
    assert_eq!(hit_scan(&origin(), &forward(), &targets, 1, 50_000), None);
}

#[test]
fn hit_scan_never_selects_behind_the_shooter() {
    let targets = vec![Target { entity_id: 2, position: Vec3Fix { x: 0, y: 0, z: 10_000 } }];
    assert_eq!(hit_scan(&origin(), &forward(), &targets, 1, 50_000), None);
}

#[test]
fn hit_scan_skips_the_shooter() {
    let targets = vec![
        Target { entity_id: 1, position: Vec3Fix { x: 0, y: 0, z: -5_000 } },
        Target { entity_id: 2, position: Vec3Fix { x: 0, y: 0, z: -10_000 } },
    ];
    let r = hit_scan(&origin(), &forward(), &targets, 1, 50_000);
    assert_eq!(r, Some(1));
}

#[test]
fn weapon_cooldown_gates_shots() {
    let mut w = PlayerWeapon::new(WeaponType::Rifle);
    assert!(!w.can_shoot(0));
    assert!(!w.can_shoot(149));
    assert!(w.can_shoot(150));
    w.shoot(150);
    assert!(!w.can_shoot(299));
    assert!(w.can_shoot(300));
}

#[test]
fn hit_scan_breaks_exact_ties_by_earliest_index() {
    let spot = Vec3Fix { x: 0, y: 0, z: -10_000 };
    let targets = vec![
        Target { entity_id: 2, position: spot },
        Target { entity_id: 3, position: spot },
    ];
    assert_eq!(hit_scan(&origin(), &forward(), &targets, 1, 50_000), Some(0));
}
