//! Weapons, health, and the server's hit-scan.
//!
//! A shot resolves instantly along a ray: among the other live players
//! inside the weapon's range, inside a narrow cone around the ray
//! (cosine at least 0.95) and within a standing height of the ray itself,
//! the one closest along the ray is hit; equal distances fall to the
//! earliest candidate. All of it is exact integer geometry: the cone test
//! compares `400 * dot^2` against `361 * |o|^2 * |d|^2`, which is precisely
//! cosine 19/20, with no square root and no rounding.

use vstd::prelude::*;
use crate::fixed::FIX_LIMIT;
use crate::protocol::{Vec3Fix, WeaponType};
use crate::sim::PLAYER_HEIGHT;

verus! {

/// Largest component a shot direction may carry: directions are unit-ish
/// vectors, and the bound keeps the squared comparisons inside `i128`.
pub const DIRECTION_LIMIT: i64 = 2000;

/// A weapon's numbers, fixed-point where dimensional.
#[derive(Clone, Copy, Debug, PartialEq, Eq, Structural)]
pub struct WeaponStats {
    /// Health removed per hit.
    pub damage: i64,
    /// Milliseconds between shots.
    pub fire_rate_ms: i64,
    /// Effective range, fixed-point units.
    pub range: i64,
    /// Accuracy in thousandths.
    pub accuracy: i64,
    /// Tracer speed, fixed-point units per second (visual only).
    pub projectile_speed: i64,
}

impl WeaponStats {
    /// The stats table of each weapon.
    pub open spec fn spec_from_type(w: WeaponType) -> WeaponStats {
        match w {
            WeaponType::Pistol => WeaponStats {
                damage: 25_000,
                fire_rate_ms: 300,
                range: 30_000,
                accuracy: 900,
                projectile_speed: 100_000,
            },
            WeaponType::Rifle => WeaponStats {
                damage: 35_000,
                fire_rate_ms: 150,
                range: 50_000,
                accuracy: 950,
                projectile_speed: 150_000,
            },
            WeaponType::Shotgun => WeaponStats {
                damage: 60_000,
                fire_rate_ms: 800,
                range: 15_000,
                accuracy: 600,
                projectile_speed: 80_000,
            },
        }
    }

    /// Look a weapon's stats up.
    pub fn from_type(weapon_type: WeaponType) -> (r: WeaponStats)
        ensures
            r == WeaponStats::spec_from_type(weapon_type),
            0 < r.damage <= 100_000,
            0 < r.fire_rate_ms <= 10_000,
            0 < r.range <= FIX_LIMIT,
    {
        match weapon_type {
            WeaponType::Pistol => WeaponStats {
                damage: 25_000,
                fire_rate_ms: 300,
                range: 30_000,
                accuracy: 900,
                projectile_speed: 100_000,
            },
            WeaponType::Rifle => WeaponStats {
                damage: 35_000,
                fire_rate_ms: 150,
                range: 50_000,
                accuracy: 950,
                projectile_speed: 150_000,
            },
            WeaponType::Shotgun => WeaponStats {
                damage: 60_000,
                fire_rate_ms: 800,
                range: 15_000,
                accuracy: 600,
                projectile_speed: 80_000,
            },
        }
    }
}

/// A player's health pool, fixed-point points.
#[derive(Clone, Copy, Debug, PartialEq, Eq, Structural)]
pub struct PlayerHealth {
    pub current: i64,
    pub max: i64,
}

/// The full health a player spawns and respawns with.
pub const FULL_HEALTH: i64 = 100_000;

impl PlayerHealth {
    /// Health sits between zero and its own maximum.
    pub open spec fn wf(self) -> bool {
        0 <= self.current <= self.max <= FIX_LIMIT
    }

    /// A fresh pool: 100 points, full.
    pub fn full() -> (r: PlayerHealth)
        ensures
            r == (PlayerHealth { current: FULL_HEALTH, max: FULL_HEALTH }),
            r.wf(),
    {
        PlayerHealth { current: FULL_HEALTH, max: FULL_HEALTH }
    }

    /// Remove `damage` points, saturating at zero.
    pub fn take_damage(&mut self, damage: i64)
        requires
            old(self).wf(),
            damage >= 0,
        ensures
            final(self).current == (if damage >= old(self).current {
                0int
            } else {
                old(self).current - damage
            }),
            final(self).max == old(self).max,
            final(self).wf(),
    {
        if damage >= self.current {
            self.current = 0;
        } else {
            self.current = self.current - damage;
        }
    }

    /// Add `amount` points, saturating at the maximum.
    pub fn heal(&mut self, amount: i64)
        requires
            old(self).wf(),
            amount >= 0,
        ensures
            final(self).current == (if amount >= old(self).max - old(self).current {
                old(self).max as int
            } else {
                old(self).current + amount
            }),
            final(self).max == old(self).max,
            final(self).wf(),
    {
        if amount >= self.max - self.current {
            self.current = self.max;
        } else {
            self.current = self.current + amount;
        }
    }

    /// Alive while any health remains.
    pub fn is_alive(&self) -> (r: bool)
        ensures
            r == (self.current > 0),
    {
        self.current > 0
    }
}

impl Default for PlayerHealth {
    /// A full pool.
    fn default() -> (r: PlayerHealth)
        ensures
            r == (PlayerHealth { current: FULL_HEALTH, max: FULL_HEALTH }),
            r.wf(),
    {
        PlayerHealth { current: FULL_HEALTH, max: FULL_HEALTH }
    }
}

/// The ray-projection measure ordering candidates: the dot product of the
/// offset to the target with the shot direction. Comparing it between
/// candidates compares their distances along the ray.
pub open spec fn spec_ray_dot(origin: Vec3Fix, dir: Vec3Fix, tpos: Vec3Fix) -> int {
    (tpos.x - origin.x) * dir.x + (tpos.y - origin.y) * dir.y + (tpos.z - origin.z) * dir.z
}

/// Whether a target position can be hit by a shot from `origin` along
/// `dir` with the given range:
/// - the target is somewhere (not exactly at the origin), the direction is
///   a direction;
/// - the target is within range of the origin;
/// - the angle between ray and target is inside the cone of cosine 19/20
///   (`400 dot^2 >= 361 |o|^2 |d|^2`, with the dot nonnegative);
/// - the target's perpendicular distance from the ray is under a standing
///   height.
pub open spec fn spec_hit_candidate(origin: Vec3Fix, dir: Vec3Fix, tpos: Vec3Fix, range: int) -> bool {
    let ox = tpos.x - origin.x;
    let oy = tpos.y - origin.y;
    let oz = tpos.z - origin.z;
    let o2 = ox * ox + oy * oy + oz * oz;
    let d2 = dir.x * dir.x + dir.y * dir.y + dir.z * dir.z;
    let dp = ox * dir.x + oy * dir.y + oz * dir.z;
    &&& o2 > 0
    &&& d2 > 0
    &&& o2 <= range * range
    &&& dp >= 0
    &&& 400 * (dp * dp) >= 361 * (o2 * d2)
    &&& o2 * d2 - dp * dp < (PLAYER_HEIGHT * PLAYER_HEIGHT) * d2
}

/// A shot direction's components stay inside [`DIRECTION_LIMIT`].
pub open spec fn spec_dir_wf(dir: Vec3Fix) -> bool {
    &&& -DIRECTION_LIMIT <= dir.x <= DIRECTION_LIMIT
    &&& -DIRECTION_LIMIT <= dir.y <= DIRECTION_LIMIT
    &&& -DIRECTION_LIMIT <= dir.z <= DIRECTION_LIMIT
}

/// Runtime check of [`spec_dir_wf`], for directions read off the wire.
pub fn check_dir_wf(dir: &Vec3Fix) -> (r: bool)
    ensures
        r == spec_dir_wf(*dir),
{
    -DIRECTION_LIMIT <= dir.x && dir.x <= DIRECTION_LIMIT && -DIRECTION_LIMIT <= dir.y && dir.y
        <= DIRECTION_LIMIT && -DIRECTION_LIMIT <= dir.z && dir.z <= DIRECTION_LIMIT
}

/// One potential target of a shot.
#[derive(Clone, Copy, Debug, PartialEq, Eq, Structural)]
pub struct Target {
    pub entity_id: u64,
    pub position: Vec3Fix,
}

fn ray_dot(origin: &Vec3Fix, dir: &Vec3Fix, tpos: &Vec3Fix) -> (r: i128)
    requires
        origin.in_world(),
        tpos.in_world(),
        spec_dir_wf(*dir),
    ensures
        r == spec_ray_dot(*origin, *dir, *tpos),
        -12_000_000_000_000 <= r <= 12_000_000_000_000,
{
    let ox = (tpos.x - origin.x) as i128;
    let oy = (tpos.y - origin.y) as i128;
    let oz = (tpos.z - origin.z) as i128;
    let dx = dir.x as i128;
    let dy = dir.y as i128;
    let dz = dir.z as i128;
    proof {
        assert(-4_000_000_000_000 <= ox * dx <= 4_000_000_000_000 && -4_000_000_000_000 <= oy * dy
            <= 4_000_000_000_000 && -4_000_000_000_000 <= oz * dz
            <= 4_000_000_000_000) by (nonlinear_arith)
            requires
                -2_000_000_000 <= ox <= 2_000_000_000,
                -2_000_000_000 <= oy <= 2_000_000_000,
                -2_000_000_000 <= oz <= 2_000_000_000,
                -2000 <= dx <= 2000,
                -2000 <= dy <= 2000,
                -2000 <= dz <= 2000,
        ;
    }
    ox * dx + oy * dy + oz * dz
}

fn is_hit_candidate(origin: &Vec3Fix, dir: &Vec3Fix, tpos: &Vec3Fix, range: i64) -> (r: bool)
    requires
        origin.in_world(),
        tpos.in_world(),
        spec_dir_wf(*dir),
        0 <= range <= FIX_LIMIT,
    ensures
        r == spec_hit_candidate(*origin, *dir, *tpos, range as int),
{
    let ox = (tpos.x - origin.x) as i128;
    let oy = (tpos.y - origin.y) as i128;
    let oz = (tpos.z - origin.z) as i128;
    let dx = dir.x as i128;
    let dy = dir.y as i128;
    let dz = dir.z as i128;
    proof {
        assert(0 <= ox * ox <= 4_000_000_000_000_000_000 && 0 <= oy * oy
            <= 4_000_000_000_000_000_000 && 0 <= oz * oz <= 4_000_000_000_000_000_000 && 0 <= dx
            * dx <= 4_000_000 && 0 <= dy * dy <= 4_000_000 && 0 <= dz * dz <= 4_000_000
            && -4_000_000_000_000 <= ox * dx <= 4_000_000_000_000 && -4_000_000_000_000 <= oy * dy
            <= 4_000_000_000_000 && -4_000_000_000_000 <= oz * dz
            <= 4_000_000_000_000) by (nonlinear_arith)
            requires
                -2_000_000_000 <= ox <= 2_000_000_000,
                -2_000_000_000 <= oy <= 2_000_000_000,
                -2_000_000_000 <= oz <= 2_000_000_000,
                -2000 <= dx <= 2000,
                -2000 <= dy <= 2000,
                -2000 <= dz <= 2000,
        ;
    }
    let o2: i128 = ox * ox + oy * oy + oz * oz;
    let d2: i128 = dx * dx + dy * dy + dz * dz;
    let dp: i128 = ox * dx + oy * dy + oz * dz;
    proof {
        assert(0 <= dp * dp <= 144_000_000_000_000_000_000_000_000_000 && 0 <= o2 * d2
            <= 144_000_000_000_000_000_000_000_000_000) by (nonlinear_arith)
            requires
                -12_000_000_000_000 <= dp <= 12_000_000_000_000,
                0 <= o2 <= 12_000_000_000_000_000_000,
                0 <= d2 <= 12_000_000,
        ;
        assert(0 <= (range as i128) * (range as i128)
            <= 1_000_000_000_000_000_000) by (nonlinear_arith)
            requires
                0 <= range <= 1_000_000_000,
        ;
    }
    o2 > 0 && d2 > 0 && o2 <= (range as i128) * (range as i128) && dp >= 0 && 400 * (dp * dp) >= 361
        * (o2 * d2) && o2 * d2 - dp * dp < 3_240_000 * d2
}

/// Resolve a hit-scan shot against a set of candidate targets.
///
/// Returns the index of the target hit, or `None` for a miss:
/// - a returned target is never the shooter, and satisfies
///   [`spec_hit_candidate`] — inside range, inside the cone, close enough
///   to the ray;
/// - no other eligible candidate lies strictly closer along the ray, and
///   among equally close candidates the earliest index wins;
/// - on `None`, no target other than the shooter was a candidate at all.
pub fn hit_scan(
    origin: &Vec3Fix,
    dir: &Vec3Fix,
    targets: &Vec<Target>,
    shooter_id: u64,
    range: i64,
) -> (r: Option<usize>)
    requires
        origin.in_world(),
        spec_dir_wf(*dir),
        0 <= range <= FIX_LIMIT,
        forall|k: int| 0 <= k < targets@.len() ==> (#[trigger] targets@[k]).position.in_world(),
    ensures
        match r {
            Some(i) => {
                &&& i < targets@.len()
                &&& targets@[i as int].entity_id != shooter_id
                &&& spec_hit_candidate(*origin, *dir, targets@[i as int].position, range as int)
                &&& forall|j: int|
                    0 <= j < targets@.len() && (#[trigger] targets@[j]).entity_id != shooter_id
                        && spec_hit_candidate(*origin, *dir, targets@[j].position, range as int)
                        ==> spec_ray_dot(*origin, *dir, targets@[i as int].position)
                        <= spec_ray_dot(*origin, *dir, targets@[j].position)
                &&& forall|j: int|
                    0 <= j < i && (#[trigger] targets@[j]).entity_id != shooter_id
                        && spec_hit_candidate(*origin, *dir, targets@[j].position, range as int)
                        ==> spec_ray_dot(*origin, *dir, targets@[i as int].position)
                        < spec_ray_dot(*origin, *dir, targets@[j].position)
            },
            None => forall|j: int|
                0 <= j < targets@.len() && (#[trigger] targets@[j]).entity_id != shooter_id
                    ==> !spec_hit_candidate(*origin, *dir, targets@[j].position, range as int),
        },
{
    let mut best: Option<usize> = None;
    let mut best_dot: i128 = 0;
    let n = targets.len();
    let mut k: usize = 0;
    while k < n
        invariant
            k <= n,
            n == targets@.len(),
            origin.in_world(),
            spec_dir_wf(*dir),
            0 <= range <= FIX_LIMIT,
            forall|j: int| 0 <= j < targets@.len() ==> (#[trigger] targets@[j]).position.in_world(),
            match best {
                Some(i) => {
                    &&& i < k
                    &&& targets@[i as int].entity_id != shooter_id
                    &&& spec_hit_candidate(*origin, *dir, targets@[i as int].position, range as int)
                    &&& best_dot == spec_ray_dot(*origin, *dir, targets@[i as int].position)
                    &&& forall|j: int|
                        0 <= j < k && (#[trigger] targets@[j]).entity_id != shooter_id
                            && spec_hit_candidate(
                            *origin,
                            *dir,
                            targets@[j].position,
                            range as int,
                        ) ==> best_dot <= spec_ray_dot(*origin, *dir, targets@[j].position)
                    &&& forall|j: int|
                        0 <= j < i && (#[trigger] targets@[j]).entity_id != shooter_id
                            && spec_hit_candidate(
                            *origin,
                            *dir,
                            targets@[j].position,
                            range as int,
                        ) ==> best_dot < spec_ray_dot(*origin, *dir, targets@[j].position)
                },
                None => forall|j: int|
                    0 <= j < k && (#[trigger] targets@[j]).entity_id != shooter_id
                        ==> !spec_hit_candidate(*origin, *dir, targets@[j].position, range as int),
            },
        decreases n - k,
    {
        let t = targets[k];
        if t.entity_id != shooter_id && is_hit_candidate(origin, dir, &t.position, range) {
            let dp = ray_dot(origin, dir, &t.position);
            match best {
                Some(_) => {
                    if dp < best_dot {
                        best = Some(k);
                        best_dot = dp;
                    }
                },
                None => {
                    best = Some(k);
                    best_dot = dp;
                },
            }
        }
        k = k + 1;
    }
    best
}

/// The client-side weapon: its stats and its cooldown clock.
#[derive(Clone, Copy, Debug, PartialEq, Eq, Structural)]
pub struct PlayerWeapon {
    pub weapon_type: WeaponType,
    pub stats: WeaponStats,
    /// When the last shot left, in milliseconds of session time.
    pub last_shot_time_ms: i64,
}

/// A bound on session clocks in milliseconds; reached after more than a
/// century.
pub const SESSION_TIME_LIMIT: i64 = 4_000_000_000_000;

impl PlayerWeapon {
    /// A clock value the weapon accepts.
    pub open spec fn wf(self) -> bool {
        &&& 0 <= self.last_shot_time_ms <= SESSION_TIME_LIMIT
        &&& self.stats == WeaponStats::spec_from_type(self.weapon_type)
    }

    /// A fresh weapon of a type, ready to fire.
    pub fn new(weapon_type: WeaponType) -> (r: PlayerWeapon)
        ensures
            r.weapon_type == weapon_type,
            r.stats == WeaponStats::spec_from_type(weapon_type),
            r.last_shot_time_ms == 0,
            r.wf(),
    {
        PlayerWeapon { weapon_type, stats: WeaponStats::from_type(weapon_type), last_shot_time_ms: 0 }
    }

    /// Whether the cooldown has passed: at least the weapon's fire
    /// interval since the last shot.
    pub fn can_shoot(&self, now_ms: i64) -> (r: bool)
        requires
            self.wf(),
            0 <= now_ms <= SESSION_TIME_LIMIT,
        ensures
            r == (now_ms - self.last_shot_time_ms >= self.stats.fire_rate_ms),
    {
        now_ms - self.last_shot_time_ms >= self.stats.fire_rate_ms
    }

    /// Record that a shot left now.
    pub fn shoot(&mut self, now_ms: i64)
        requires
            old(self).wf(),
            0 <= now_ms <= SESSION_TIME_LIMIT,
        ensures
            *final(self) == (PlayerWeapon { last_shot_time_ms: now_ms, ..*old(self) }),
            final(self).wf(),
    {
        self.last_shot_time_ms = now_ms;
    }
}

} // verus!
