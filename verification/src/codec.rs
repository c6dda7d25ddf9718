//! The binary form of [`NetworkMessage`]: one tag byte, then the variant's
//! fields in fixed-width little-endian order.
//!
//! [`encode_message`] is proved to produce exactly [`spec_encode`], and
//! [`decode_message`] is proved both sound (whatever it accepts is the exact
//! encoding of what it returns) and complete (it accepts every encoding), so
//! a decoded message is always the message that was sent, and a decode
//! failure really does mean the bytes were not a message. A failed decode is
//! dropped by the receiver, never fatal.

use vstd::prelude::*;
use crate::protocol::{NetworkMessage, PlayerInput, PlayerState, Vec2Fix, Vec3Fix, WeaponType};

verus! {

/// The little-endian bytes of a `u64`.
pub open spec fn spec_u64_le(x: u64) -> Seq<u8> {
    seq![
        (x & 0xff) as u8,
        ((x >> 8) & 0xff) as u8,
        ((x >> 16) & 0xff) as u8,
        ((x >> 24) & 0xff) as u8,
        ((x >> 32) & 0xff) as u8,
        ((x >> 40) & 0xff) as u8,
        ((x >> 48) & 0xff) as u8,
        ((x >> 56) & 0xff) as u8,
    ]
}

/// The little-endian bytes of a `u32`.
pub open spec fn spec_u32_le(x: u32) -> Seq<u8> {
    seq![(x & 0xff) as u8, ((x >> 8) & 0xff) as u8, ((x >> 16) & 0xff) as u8, ((x >> 24)
        & 0xff) as u8]
}

/// The little-endian bytes of an `i64` (two's complement).
pub open spec fn spec_i64_le(x: i64) -> Seq<u8> {
    spec_u64_le(x as u64)
}

/// A `u64` recomposed from eight little-endian bytes.
pub open spec fn spec_le_to_u64(s: Seq<u8>) -> u64
    recommends
        s.len() == 8,
{
    ((s[0] as u64) | ((s[1] as u64) << 8) | ((s[2] as u64) << 16) | ((s[3] as u64) << 24) | (
    (s[4] as u64) << 32) | ((s[5] as u64) << 40) | ((s[6] as u64) << 48) | ((s[7] as u64)
        << 56)) as u64
}

/// A `u32` recomposed from four little-endian bytes.
pub open spec fn spec_le_to_u32(s: Seq<u8>) -> u32
    recommends
        s.len() == 4,
{
    ((s[0] as u32) | ((s[1] as u32) << 8) | ((s[2] as u32) << 16) | ((s[3] as u32)
        << 24)) as u32
}

/// Recomposing the bytes of `x` gives back `x`.
pub proof fn lemma_u64_le_id(x: u64)
    ensures
        spec_le_to_u64(spec_u64_le(x)) == x,
{
    assert((((x & 0xff) as u8 as u64) | ((((x >> 8) & 0xff) as u8 as u64) << 8) | ((((x
        >> 16) & 0xff) as u8 as u64) << 16) | ((((x >> 24) & 0xff) as u8 as u64) << 24) | ((((x
        >> 32) & 0xff) as u8 as u64) << 32) | ((((x >> 40) & 0xff) as u8 as u64) << 40) | ((((x
        >> 48) & 0xff) as u8 as u64) << 48) | ((((x >> 56) & 0xff) as u8 as u64) << 56)) as u64
        == x) by (bit_vector);
}

/// The bytes of a recomposed `u64` are the bytes it was recomposed from.
pub proof fn lemma_u64_le_of_bytes(s: Seq<u8>)
    requires
        s.len() == 8,
    ensures
        spec_u64_le(spec_le_to_u64(s)) == s,
{
    let b0 = s[0];
    let b1 = s[1];
    let b2 = s[2];
    let b3 = s[3];
    let b4 = s[4];
    let b5 = s[5];
    let b6 = s[6];
    let b7 = s[7];
    let y = spec_le_to_u64(s);
    assert({
        let y = ((b0 as u64) | ((b1 as u64) << 8) | ((b2 as u64) << 16) | ((b3 as u64) << 24) | (
        (b4 as u64) << 32) | ((b5 as u64) << 40) | ((b6 as u64) << 48) | ((b7 as u64)
            << 56)) as u64;
        (y & 0xff) as u8 == b0 && ((y >> 8) & 0xff) as u8 == b1 && ((y >> 16) & 0xff) as u8 == b2
            && ((y >> 24) & 0xff) as u8 == b3 && ((y >> 32) & 0xff) as u8 == b4 && ((y >> 40)
            & 0xff) as u8 == b5 && ((y >> 48) & 0xff) as u8 == b6 && ((y >> 56) & 0xff) as u8 == b7
    }) by (bit_vector);
    assert(spec_u64_le(y) =~= s);
}

/// Recomposing the bytes of `x` gives back `x` (32-bit).
pub proof fn lemma_u32_le_id(x: u32)
    ensures
        spec_le_to_u32(spec_u32_le(x)) == x,
{
    assert((((x & 0xff) as u8 as u32) | ((((x >> 8) & 0xff) as u8 as u32) << 8) | ((((x
        >> 16) & 0xff) as u8 as u32) << 16) | ((((x >> 24) & 0xff) as u8 as u32) << 24)) as u32
        == x) by (bit_vector);
}

/// The bytes of a recomposed `u32` are the bytes it was recomposed from.
pub proof fn lemma_u32_le_of_bytes(s: Seq<u8>)
    requires
        s.len() == 4,
    ensures
        spec_u32_le(spec_le_to_u32(s)) == s,
{
    let b0 = s[0];
    let b1 = s[1];
    let b2 = s[2];
    let b3 = s[3];
    let y = spec_le_to_u32(s);
    assert({
        let y = ((b0 as u32) | ((b1 as u32) << 8) | ((b2 as u32) << 16) | ((b3 as u32)
            << 24)) as u32;
        (y & 0xff) as u8 == b0 && ((y >> 8) & 0xff) as u8 == b1 && ((y >> 16) & 0xff) as u8 == b2
            && ((y >> 24) & 0xff) as u8 == b3
    }) by (bit_vector);
    assert(spec_u32_le(y) =~= s);
}

/// Casting `i64 -> u64 -> i64` is the identity.
pub proof fn lemma_i64_cast_id(x: i64)
    ensures
        (x as u64) as i64 == x,
{
    assert((x as u64) as i64 == x) by (bit_vector);
}

/// Casting `u64 -> i64 -> u64` is the identity.
pub proof fn lemma_u64_cast_id(y: u64)
    ensures
        (y as i64) as u64 == y,
{
    assert((y as i64) as u64 == y) by (bit_vector);
}

fn push_byte(out: &mut Vec<u8>, x: u8)
    ensures
        final(out)@ == old(out)@ + seq![x],
{
    out.push(x);
    proof {
        assert(out@ =~= old(out)@ + seq![x]);
    }
}

fn push_u64(out: &mut Vec<u8>, x: u64)
    ensures
        final(out)@ == old(out)@ + spec_u64_le(x),
{
    proof {
        assert(x & 0xff < 256 && (x >> 8) & 0xff < 256 && (x >> 16) & 0xff < 256 && (x >> 24)
            & 0xff < 256 && (x >> 32) & 0xff < 256 && (x >> 40) & 0xff < 256 && (x >> 48) & 0xff
            < 256 && (x >> 56) & 0xff < 256) by (bit_vector);
    }
    out.push((x & 0xff) as u8);
    out.push(((x >> 8) & 0xff) as u8);
    out.push(((x >> 16) & 0xff) as u8);
    out.push(((x >> 24) & 0xff) as u8);
    out.push(((x >> 32) & 0xff) as u8);
    out.push(((x >> 40) & 0xff) as u8);
    out.push(((x >> 48) & 0xff) as u8);
    out.push(((x >> 56) & 0xff) as u8);
    proof {
        assert(out@ =~= old(out)@ + spec_u64_le(x));
    }
}

fn push_u32(out: &mut Vec<u8>, x: u32)
    ensures
        final(out)@ == old(out)@ + spec_u32_le(x),
{
    proof {
        assert(x & 0xff < 256 && (x >> 8) & 0xff < 256 && (x >> 16) & 0xff < 256 && (x >> 24)
            & 0xff < 256) by (bit_vector);
    }
    out.push((x & 0xff) as u8);
    out.push(((x >> 8) & 0xff) as u8);
    out.push(((x >> 16) & 0xff) as u8);
    out.push(((x >> 24) & 0xff) as u8);
    proof {
        assert(out@ =~= old(out)@ + spec_u32_le(x));
    }
}

fn push_i64(out: &mut Vec<u8>, x: i64)
    ensures
        final(out)@ == old(out)@ + spec_i64_le(x),
{
    proof {
        lemma_i64_cast_id(x);
    }
    #[verifier::truncate]
    let u: u64 = x as u64;
    push_u64(out, u);
}

fn read_u64(b: &Vec<u8>, i: usize) -> (r: u64)
    requires
        i + 8 <= b@.len(),
    ensures
        r == spec_le_to_u64(b@.subrange(i as int, i as int + 8)),
{
    let n = b.len();
    let r = (b[i] as u64) | ((b[i + 1] as u64) << 8u64) | ((b[i + 2] as u64) << 16u64) | ((b[i
        + 3] as u64) << 24u64) | ((b[i + 4] as u64) << 32u64) | ((b[i + 5] as u64) << 40u64) | ((b[i
        + 6] as u64) << 48u64) | ((b[i + 7] as u64) << 56u64);
    proof {
        let s = b@.subrange(i as int, i as int + 8);
        assert(s[0] == b@[i as int] && s[1] == b@[i as int + 1] && s[2] == b@[i as int + 2] && s[3]
            == b@[i as int + 3] && s[4] == b@[i as int + 4] && s[5] == b@[i as int + 5] && s[6]
            == b@[i as int + 6] && s[7] == b@[i as int + 7]);
    }
    r
}

fn read_u32(b: &Vec<u8>, i: usize) -> (r: u32)
    requires
        i + 4 <= b@.len(),
    ensures
        r == spec_le_to_u32(b@.subrange(i as int, i as int + 4)),
{
    let n = b.len();
    let r = (b[i] as u32) | ((b[i + 1] as u32) << 8u32) | ((b[i + 2] as u32) << 16u32) | ((b[i
        + 3] as u32) << 24u32);
    proof {
        let s = b@.subrange(i as int, i as int + 4);
        assert(s[0] == b@[i as int] && s[1] == b@[i as int + 1] && s[2] == b@[i as int + 2] && s[3]
            == b@[i as int + 3]);
    }
    r
}

fn read_i64(b: &Vec<u8>, i: usize) -> (r: i64)
    requires
        i + 8 <= b@.len(),
    ensures
        r as u64 == spec_le_to_u64(b@.subrange(i as int, i as int + 8)),
{
    let u = read_u64(b, i);
    proof {
        lemma_u64_cast_id(u);
    }
    #[verifier::truncate]
    let r: i64 = u as i64;
    r
}

/// The byte of a boolean field.
pub open spec fn spec_bool_byte(b: bool) -> u8 {
    if b {
        1
    } else {
        0
    }
}

/// The byte of a weapon type.
pub open spec fn spec_weapon_byte(w: WeaponType) -> u8 {
    match w {
        WeaponType::Pistol => 0,
        WeaponType::Rifle => 1,
        WeaponType::Shotgun => 2,
    }
}

/// The flag byte of an optional killer id.
pub open spec fn spec_opt_flag(k: Option<u64>) -> u8 {
    match k {
        Option::Some(_) => 1,
        Option::None => 0,
    }
}

/// The value bytes of an optional killer id (absent encodes as zero).
pub open spec fn spec_opt_value(k: Option<u64>) -> u64 {
    match k {
        Option::Some(x) => x,
        Option::None => 0,
    }
}

/// The bytes of a 3-D vector: x, y, z.
pub open spec fn spec_enc_vec3(v: Vec3Fix) -> Seq<u8> {
    spec_i64_le(v.x) + spec_i64_le(v.y) + spec_i64_le(v.z)
}

/// The bytes of a player input.
pub open spec fn spec_enc_input(i: PlayerInput) -> Seq<u8> {
    spec_i64_le(i.move_direction.x) + spec_i64_le(i.move_direction.y) + seq![
        spec_bool_byte(i.jump),
    ] + spec_i64_le(i.yaw) + spec_i64_le(i.pitch) + spec_u32_le(i.sequence_number)
}

/// The bytes of a player state.
pub open spec fn spec_enc_state(s: PlayerState) -> Seq<u8> {
    spec_u64_le(s.entity_id) + spec_enc_vec3(s.position) + spec_enc_vec3(s.velocity)
        + spec_i64_le(s.yaw) + spec_u32_le(s.sequence_number)
}

/// The tag byte of each variant.
pub open spec fn spec_tag(m: NetworkMessage) -> u8 {
    match m {
        NetworkMessage::PlayerInput(..) => 0,
        NetworkMessage::PlayerStateUpdate(..) => 1,
        NetworkMessage::RigidBodyUpdate { .. } => 2,
        NetworkMessage::PlayerConnected { .. } => 3,
        NetworkMessage::PlayerDisconnected { .. } => 4,
        NetworkMessage::PlayerShoot { .. } => 5,
        NetworkMessage::ProjectileHit { .. } => 6,
        NetworkMessage::HealthUpdate { .. } => 7,
        NetworkMessage::PlayerDied { .. } => 8,
        NetworkMessage::PlayerRespawn { .. } => 9,
    }
}

/// Every variant's encoding has a length fixed by its tag.
pub open spec fn spec_len_of_tag(t: u8) -> int {
    if t == 0 {
        38
    } else if t == 1 {
        69
    } else if t == 2 {
        41
    } else if t == 3 {
        17
    } else if t == 4 {
        9
    } else if t == 5 {
        50
    } else if t == 6 {
        33
    } else if t == 7 {
        25
    } else if t == 8 {
        18
    } else if t == 9 {
        33
    } else {
        0
    }
}

/// The whole encoding of a message: its tag byte, then its payload.
pub open spec fn spec_encode(m: NetworkMessage) -> Seq<u8> {
    match m {
        NetworkMessage::PlayerInput(i) => seq![0u8] + spec_enc_input(i),
        NetworkMessage::PlayerStateUpdate(s) => seq![1u8] + spec_enc_state(s),
        NetworkMessage::RigidBodyUpdate { entity_id, position, yaw } => seq![2u8] + spec_u64_le(
            entity_id,
        ) + spec_enc_vec3(position) + spec_i64_le(yaw),
        NetworkMessage::PlayerConnected { entity_id, client_id } => seq![3u8] + spec_u64_le(
            entity_id,
        ) + spec_u64_le(client_id),
        NetworkMessage::PlayerDisconnected { entity_id } => seq![4u8] + spec_u64_le(entity_id),
        NetworkMessage::PlayerShoot { origin, direction, weapon_type } => seq![5u8] + spec_enc_vec3(
            origin,
        ) + spec_enc_vec3(direction) + seq![spec_weapon_byte(weapon_type)],
        NetworkMessage::ProjectileHit { position, damage } => seq![6u8] + spec_enc_vec3(position)
            + spec_i64_le(damage),
        NetworkMessage::HealthUpdate { entity_id, current_health, max_health } => seq![7u8]
            + spec_u64_le(entity_id) + spec_i64_le(current_health) + spec_i64_le(max_health),
        NetworkMessage::PlayerDied { entity_id, killer_id } => seq![8u8] + spec_u64_le(entity_id)
            + seq![spec_opt_flag(killer_id)] + spec_u64_le(spec_opt_value(killer_id)),
        NetworkMessage::PlayerRespawn { entity_id, position } => seq![9u8] + spec_u64_le(entity_id)
            + spec_enc_vec3(position),
    }
}

/// Every encoding starts with its variant's tag and has the length that tag
/// fixes.
pub proof fn lemma_encode_shape(m: NetworkMessage)
    ensures
        spec_encode(m).len() == spec_len_of_tag(spec_tag(m)),
        spec_encode(m).len() >= 9,
        spec_encode(m)[0] == spec_tag(m),
        spec_tag(m) <= 9,
{
}

fn push_vec3(out: &mut Vec<u8>, v: &Vec3Fix)
    ensures
        final(out)@ == old(out)@ + spec_enc_vec3(*v),
{
    push_i64(out, v.x);
    push_i64(out, v.y);
    push_i64(out, v.z);
    proof {
        assert(out@ =~= old(out)@ + spec_enc_vec3(*v));
    }
}

/// Encode a message as its exact wire bytes.
pub fn encode_message(m: &NetworkMessage) -> (r: Vec<u8>)
    ensures
        r@ == spec_encode(*m),
{
    let mut out: Vec<u8> = Vec::new();
    match m {
        NetworkMessage::PlayerInput(i) => {
            push_byte(&mut out, 0);
            push_i64(&mut out, i.move_direction.x);
            push_i64(&mut out, i.move_direction.y);
            push_byte(&mut out, if i.jump { 1 } else { 0 });
            push_i64(&mut out, i.yaw);
            push_i64(&mut out, i.pitch);
            push_u32(&mut out, i.sequence_number);
        },
        NetworkMessage::PlayerStateUpdate(s) => {
            push_byte(&mut out, 1);
            push_u64(&mut out, s.entity_id);
            push_vec3(&mut out, &s.position);
            push_vec3(&mut out, &s.velocity);
            push_i64(&mut out, s.yaw);
            push_u32(&mut out, s.sequence_number);
        },
        NetworkMessage::RigidBodyUpdate { entity_id, position, yaw } => {
            push_byte(&mut out, 2);
            push_u64(&mut out, *entity_id);
            push_vec3(&mut out, position);
            push_i64(&mut out, *yaw);
        },
        NetworkMessage::PlayerConnected { entity_id, client_id } => {
            push_byte(&mut out, 3);
            push_u64(&mut out, *entity_id);
            push_u64(&mut out, *client_id);
        },
        NetworkMessage::PlayerDisconnected { entity_id } => {
            push_byte(&mut out, 4);
            push_u64(&mut out, *entity_id);
        },
        NetworkMessage::PlayerShoot { origin, direction, weapon_type } => {
            push_byte(&mut out, 5);
            push_vec3(&mut out, origin);
            push_vec3(&mut out, direction);
            let wb: u8 = match weapon_type {
                WeaponType::Pistol => 0,
                WeaponType::Rifle => 1,
                WeaponType::Shotgun => 2,
            };
            push_byte(&mut out, wb);
        },
        NetworkMessage::ProjectileHit { position, damage } => {
            push_byte(&mut out, 6);
            push_vec3(&mut out, position);
            push_i64(&mut out, *damage);
        },
        NetworkMessage::HealthUpdate { entity_id, current_health, max_health } => {
            push_byte(&mut out, 7);
            push_u64(&mut out, *entity_id);
            push_i64(&mut out, *current_health);
            push_i64(&mut out, *max_health);
        },
        NetworkMessage::PlayerDied { entity_id, killer_id } => {
            push_byte(&mut out, 8);
            push_u64(&mut out, *entity_id);
            match killer_id {
                Option::Some(k) => {
                    push_byte(&mut out, 1);
                    push_u64(&mut out, *k);
                },
                Option::None => {
                    push_byte(&mut out, 0);
                    push_u64(&mut out, 0);
                },
            }
        },
        NetworkMessage::PlayerRespawn { entity_id, position } => {
            push_byte(&mut out, 9);
            push_u64(&mut out, *entity_id);
            push_vec3(&mut out, position);
        },
    }
    proof {
        assert(out@ =~= spec_encode(*m));
    }
    out
}

pub proof fn lemma_u64_le_injective(a: u64, b: u64)
    requires
        spec_u64_le(a) == spec_u64_le(b),
    ensures
        a == b,
{
    lemma_u64_le_id(a);
    lemma_u64_le_id(b);
}

pub proof fn lemma_i64_le_injective(a: i64, b: i64)
    requires
        spec_i64_le(a) == spec_i64_le(b),
    ensures
        a == b,
{
    lemma_u64_le_injective(a as u64, b as u64);
    lemma_i64_cast_id(a);
    lemma_i64_cast_id(b);
}

pub proof fn lemma_u32_le_injective(a: u32, b: u32)
    requires
        spec_u32_le(a) == spec_u32_le(b),
    ensures
        a == b,
{
    lemma_u32_le_id(a);
    lemma_u32_le_id(b);
}

pub proof fn lemma_enc_vec3_injective(a: Vec3Fix, b: Vec3Fix)
    requires
        spec_enc_vec3(a) == spec_enc_vec3(b),
    ensures
        a == b,
{
    assert(spec_enc_vec3(a).subrange(0, 8) =~= spec_i64_le(a.x));
    assert(spec_enc_vec3(b).subrange(0, 8) =~= spec_i64_le(b.x));
    assert(spec_enc_vec3(a).subrange(8, 16) =~= spec_i64_le(a.y));
    assert(spec_enc_vec3(b).subrange(8, 16) =~= spec_i64_le(b.y));
    assert(spec_enc_vec3(a).subrange(16, 24) =~= spec_i64_le(a.z));
    assert(spec_enc_vec3(b).subrange(16, 24) =~= spec_i64_le(b.z));
    lemma_i64_le_injective(a.x, b.x);
    lemma_i64_le_injective(a.y, b.y);
    lemma_i64_le_injective(a.z, b.z);
}

pub proof fn lemma_enc_input_injective(a: PlayerInput, b: PlayerInput)
    requires
        spec_enc_input(a) == spec_enc_input(b),
    ensures
        a == b,
{
    assert(spec_enc_input(a).subrange(0, 8) =~= spec_i64_le(a.move_direction.x));
    assert(spec_enc_input(b).subrange(0, 8) =~= spec_i64_le(b.move_direction.x));
    assert(spec_enc_input(a).subrange(8, 16) =~= spec_i64_le(a.move_direction.y));
    assert(spec_enc_input(b).subrange(8, 16) =~= spec_i64_le(b.move_direction.y));
    assert(spec_enc_input(a)[16] == spec_bool_byte(a.jump));
    assert(spec_enc_input(b)[16] == spec_bool_byte(b.jump));
    assert(spec_enc_input(a).subrange(17, 25) =~= spec_i64_le(a.yaw));
    assert(spec_enc_input(b).subrange(17, 25) =~= spec_i64_le(b.yaw));
    assert(spec_enc_input(a).subrange(25, 33) =~= spec_i64_le(a.pitch));
    assert(spec_enc_input(b).subrange(25, 33) =~= spec_i64_le(b.pitch));
    assert(spec_enc_input(a).subrange(33, 37) =~= spec_u32_le(a.sequence_number));
    assert(spec_enc_input(b).subrange(33, 37) =~= spec_u32_le(b.sequence_number));
    lemma_i64_le_injective(a.move_direction.x, b.move_direction.x);
    lemma_i64_le_injective(a.move_direction.y, b.move_direction.y);
    lemma_i64_le_injective(a.yaw, b.yaw);
    lemma_i64_le_injective(a.pitch, b.pitch);
    lemma_u32_le_injective(a.sequence_number, b.sequence_number);
}

pub proof fn lemma_enc_state_injective(a: PlayerState, b: PlayerState)
    requires
        spec_enc_state(a) == spec_enc_state(b),
    ensures
        a == b,
{
    assert(spec_enc_state(a).subrange(0, 8) =~= spec_u64_le(a.entity_id));
    assert(spec_enc_state(b).subrange(0, 8) =~= spec_u64_le(b.entity_id));
    assert(spec_enc_state(a).subrange(8, 32) =~= spec_enc_vec3(a.position));
    assert(spec_enc_state(b).subrange(8, 32) =~= spec_enc_vec3(b.position));
    assert(spec_enc_state(a).subrange(32, 56) =~= spec_enc_vec3(a.velocity));
    assert(spec_enc_state(b).subrange(32, 56) =~= spec_enc_vec3(b.velocity));
    assert(spec_enc_state(a).subrange(56, 64) =~= spec_i64_le(a.yaw));
    assert(spec_enc_state(b).subrange(56, 64) =~= spec_i64_le(b.yaw));
    assert(spec_enc_state(a).subrange(64, 68) =~= spec_u32_le(a.sequence_number));
    assert(spec_enc_state(b).subrange(64, 68) =~= spec_u32_le(b.sequence_number));
    lemma_u64_le_injective(a.entity_id, b.entity_id);
    lemma_enc_vec3_injective(a.position, b.position);
    lemma_enc_vec3_injective(a.velocity, b.velocity);
    lemma_i64_le_injective(a.yaw, b.yaw);
    lemma_u32_le_injective(a.sequence_number, b.sequence_number);
}

/// No two distinct messages share an encoding.
#[verifier::rlimit(60)]
pub proof fn lemma_encode_injective(m1: NetworkMessage, m2: NetworkMessage)
    requires
        spec_encode(m1) == spec_encode(m2),
    ensures
        m1 == m2,
{
    lemma_encode_shape(m1);
    lemma_encode_shape(m2);
    let s = spec_encode(m1);
    match (m1, m2) {
        (NetworkMessage::PlayerInput(a), NetworkMessage::PlayerInput(b)) => {
            assert(s.subrange(1, 38) =~= spec_enc_input(a));
            assert(s.subrange(1, 38) =~= spec_enc_input(b));
            lemma_enc_input_injective(a, b);
        },
        (NetworkMessage::PlayerStateUpdate(a), NetworkMessage::PlayerStateUpdate(b)) => {
            assert(s.subrange(1, 69) =~= spec_enc_state(a));
            assert(s.subrange(1, 69) =~= spec_enc_state(b));
            lemma_enc_state_injective(a, b);
        },
        (
            NetworkMessage::RigidBodyUpdate { entity_id: e1, position: p1, yaw: y1 },
            NetworkMessage::RigidBodyUpdate { entity_id: e2, position: p2, yaw: y2 },
        ) => {
            assert(s.subrange(1, 9) =~= spec_u64_le(e1));
            assert(s.subrange(1, 9) =~= spec_u64_le(e2));
            assert(s.subrange(9, 33) =~= spec_enc_vec3(p1));
            assert(s.subrange(9, 33) =~= spec_enc_vec3(p2));
            assert(s.subrange(33, 41) =~= spec_i64_le(y1));
            assert(s.subrange(33, 41) =~= spec_i64_le(y2));
            lemma_u64_le_injective(e1, e2);
            lemma_enc_vec3_injective(p1, p2);
            lemma_i64_le_injective(y1, y2);
        },
        (
            NetworkMessage::PlayerConnected { entity_id: e1, client_id: c1 },
            NetworkMessage::PlayerConnected { entity_id: e2, client_id: c2 },
        ) => {
            assert(s.subrange(1, 9) =~= spec_u64_le(e1));
            assert(s.subrange(1, 9) =~= spec_u64_le(e2));
            assert(s.subrange(9, 17) =~= spec_u64_le(c1));
            assert(s.subrange(9, 17) =~= spec_u64_le(c2));
            lemma_u64_le_injective(e1, e2);
            lemma_u64_le_injective(c1, c2);
        },
        (
            NetworkMessage::PlayerDisconnected { entity_id: e1 },
            NetworkMessage::PlayerDisconnected { entity_id: e2 },
        ) => {
            assert(s.subrange(1, 9) =~= spec_u64_le(e1));
            assert(s.subrange(1, 9) =~= spec_u64_le(e2));
            lemma_u64_le_injective(e1, e2);
        },
        (
            NetworkMessage::PlayerShoot { origin: o1, direction: d1, weapon_type: w1 },
            NetworkMessage::PlayerShoot { origin: o2, direction: d2, weapon_type: w2 },
        ) => {
            assert(s.subrange(1, 25) =~= spec_enc_vec3(o1));
            assert(s.subrange(1, 25) =~= spec_enc_vec3(o2));
            assert(s.subrange(25, 49) =~= spec_enc_vec3(d1));
            assert(s.subrange(25, 49) =~= spec_enc_vec3(d2));
            assert(s[49] == spec_weapon_byte(w1));
            assert(s[49] == spec_weapon_byte(w2));
            lemma_enc_vec3_injective(o1, o2);
            lemma_enc_vec3_injective(d1, d2);
        },
        (
            NetworkMessage::ProjectileHit { position: p1, damage: g1 },
            NetworkMessage::ProjectileHit { position: p2, damage: g2 },
        ) => {
            assert(s.subrange(1, 25) =~= spec_enc_vec3(p1));
            assert(s.subrange(1, 25) =~= spec_enc_vec3(p2));
            assert(s.subrange(25, 33) =~= spec_i64_le(g1));
            assert(s.subrange(25, 33) =~= spec_i64_le(g2));
            lemma_enc_vec3_injective(p1, p2);
            lemma_i64_le_injective(g1, g2);
        },
        (
            NetworkMessage::HealthUpdate { entity_id: e1, current_health: c1, max_health: x1 },
            NetworkMessage::HealthUpdate { entity_id: e2, current_health: c2, max_health: x2 },
        ) => {
            assert(s.subrange(1, 9) =~= spec_u64_le(e1));
            assert(s.subrange(1, 9) =~= spec_u64_le(e2));
            assert(s.subrange(9, 17) =~= spec_i64_le(c1));
            assert(s.subrange(9, 17) =~= spec_i64_le(c2));
            assert(s.subrange(17, 25) =~= spec_i64_le(x1));
            assert(s.subrange(17, 25) =~= spec_i64_le(x2));
            lemma_u64_le_injective(e1, e2);
            lemma_i64_le_injective(c1, c2);
            lemma_i64_le_injective(x1, x2);
        },
        (
            NetworkMessage::PlayerDied { entity_id: e1, killer_id: k1 },
            NetworkMessage::PlayerDied { entity_id: e2, killer_id: k2 },
        ) => {
            assert(s.subrange(1, 9) =~= spec_u64_le(e1));
            assert(s.subrange(1, 9) =~= spec_u64_le(e2));
            assert(s[9] == spec_opt_flag(k1));
            assert(s[9] == spec_opt_flag(k2));
            assert(s.subrange(10, 18) =~= spec_u64_le(spec_opt_value(k1)));
            assert(s.subrange(10, 18) =~= spec_u64_le(spec_opt_value(k2)));
            lemma_u64_le_injective(e1, e2);
            lemma_u64_le_injective(spec_opt_value(k1), spec_opt_value(k2));
        },
        (
            NetworkMessage::PlayerRespawn { entity_id: e1, position: p1 },
            NetworkMessage::PlayerRespawn { entity_id: e2, position: p2 },
        ) => {
            assert(s.subrange(1, 9) =~= spec_u64_le(e1));
            assert(s.subrange(1, 9) =~= spec_u64_le(e2));
            assert(s.subrange(9, 33) =~= spec_enc_vec3(p1));
            assert(s.subrange(9, 33) =~= spec_enc_vec3(p2));
            lemma_u64_le_injective(e1, e2);
            lemma_enc_vec3_injective(p1, p2);
        },
        _ => {
            assert(spec_tag(m1) == s[0] && spec_tag(m2) == s[0]);
            assert(false);
        },
    }
}

fn read_u64_field(b: &Vec<u8>, i: usize) -> (r: u64)
    requires
        i + 8 <= b@.len(),
    ensures
        spec_u64_le(r) == b@.subrange(i as int, i as int + 8),
{
    let r = read_u64(b, i);
    proof {
        lemma_u64_le_of_bytes(b@.subrange(i as int, i as int + 8));
    }
    r
}

fn read_i64_field(b: &Vec<u8>, i: usize) -> (r: i64)
    requires
        i + 8 <= b@.len(),
    ensures
        spec_i64_le(r) == b@.subrange(i as int, i as int + 8),
{
    let r = read_i64(b, i);
    proof {
        lemma_u64_le_of_bytes(b@.subrange(i as int, i as int + 8));
    }
    r
}

fn read_u32_field(b: &Vec<u8>, i: usize) -> (r: u32)
    requires
        i + 4 <= b@.len(),
    ensures
        spec_u32_le(r) == b@.subrange(i as int, i as int + 4),
{
    let r = read_u32(b, i);
    proof {
        lemma_u32_le_of_bytes(b@.subrange(i as int, i as int + 4));
    }
    r
}

fn read_vec3(b: &Vec<u8>, i: usize) -> (r: Vec3Fix)
    requires
        i + 24 <= b@.len(),
    ensures
        spec_enc_vec3(r) == b@.subrange(i as int, i as int + 24),
{
    let n = b.len();
    let x = read_i64_field(b, i);
    let y = read_i64_field(b, i + 8);
    let z = read_i64_field(b, i + 16);
    let r = Vec3Fix { x, y, z };
    proof {
        assert(spec_enc_vec3(r) =~= b@.subrange(i as int, i as int + 24));
    }
    r
}

/// Decode wire bytes back into a message.
///
/// Sound: an accepted input is exactly the encoding of the returned message.
/// Complete: every encoding is accepted, and as the message that produced
/// it. So `None` means the bytes are no message at all, and the receiver
/// drops them and keeps draining its channel.
#[verifier::rlimit(80)]
pub fn decode_message(b: &Vec<u8>) -> (r: Option<NetworkMessage>)
    ensures
        r matches Some(m) ==> b@ == spec_encode(m),
        forall|m: NetworkMessage| b@ == #[trigger] spec_encode(m) ==> r == Some(m),
{
    let n = b.len();
    if n == 0 {
        proof {
            assert forall|m: NetworkMessage| b@ != #[trigger] spec_encode(m) by {
                lemma_encode_shape(m);
            }
        }
        return None;
    }
    let tag = b[0];
    if tag == 0 && n == 38 {
        let mdx = read_i64_field(b, 1);
        let mdy = read_i64_field(b, 9);
        let jb = b[17];
        if jb > 1 {
            proof {
                assert forall|m: NetworkMessage| b@ != #[trigger] spec_encode(m) by {
                    lemma_encode_shape(m);
                    if b@ == spec_encode(m) {
                        match m {
                            NetworkMessage::PlayerInput(i) => {
                                assert(spec_encode(m)[17] == spec_bool_byte(i.jump));
                            },
                            _ => {},
                        }
                    }
                }
            }
            return None;
        }
        let yaw = read_i64_field(b, 18);
        let pitch = read_i64_field(b, 26);
        let seqno = read_u32_field(b, 34);
        let msg = NetworkMessage::PlayerInput(
            PlayerInput {
                move_direction: Vec2Fix { x: mdx, y: mdy },
                jump: jb == 1,
                yaw,
                pitch,
                sequence_number: seqno,
            },
        );
        proof {
            assert(b@ =~= spec_encode(msg));
            assert forall|m: NetworkMessage| b@ == #[trigger] spec_encode(m) implies m == msg by {
                lemma_encode_injective(m, msg);
            }
        }
        return Some(msg);
    }
    if tag == 1 && n == 69 {
        let entity_id = read_u64_field(b, 1);
        let position = read_vec3(b, 9);
        let velocity = read_vec3(b, 33);
        let yaw = read_i64_field(b, 57);
        let seqno = read_u32_field(b, 65);
        let msg = NetworkMessage::PlayerStateUpdate(
            PlayerState { entity_id, position, velocity, yaw, sequence_number: seqno },
        );
        proof {
            assert(b@ =~= spec_encode(msg));
            assert forall|m: NetworkMessage| b@ == #[trigger] spec_encode(m) implies m == msg by {
                lemma_encode_injective(m, msg);
            }
        }
        return Some(msg);
    }
    if tag == 2 && n == 41 {
        let entity_id = read_u64_field(b, 1);
        let position = read_vec3(b, 9);
        let yaw = read_i64_field(b, 33);
        let msg = NetworkMessage::RigidBodyUpdate { entity_id, position, yaw };
        proof {
            assert(b@ =~= spec_encode(msg));
            assert forall|m: NetworkMessage| b@ == #[trigger] spec_encode(m) implies m == msg by {
                lemma_encode_injective(m, msg);
            }
        }
        return Some(msg);
    }
    if tag == 3 && n == 17 {
        let entity_id = read_u64_field(b, 1);
        let client_id = read_u64_field(b, 9);
        let msg = NetworkMessage::PlayerConnected { entity_id, client_id };
        proof {
            assert(b@ =~= spec_encode(msg));
            assert forall|m: NetworkMessage| b@ == #[trigger] spec_encode(m) implies m == msg by {
                lemma_encode_injective(m, msg);
            }
        }
        return Some(msg);
    }
    if tag == 4 && n == 9 {
        let entity_id = read_u64_field(b, 1);
        let msg = NetworkMessage::PlayerDisconnected { entity_id };
        proof {
            assert(b@ =~= spec_encode(msg));
            assert forall|m: NetworkMessage| b@ == #[trigger] spec_encode(m) implies m == msg by {
                lemma_encode_injective(m, msg);
            }
        }
        return Some(msg);
    }
    if tag == 5 && n == 50 {
        let origin = read_vec3(b, 1);
        let direction = read_vec3(b, 25);
        let wb = b[49];
        if wb > 2 {
            proof {
                assert forall|m: NetworkMessage| b@ != #[trigger] spec_encode(m) by {
                    lemma_encode_shape(m);
                    if b@ == spec_encode(m) {
                        match m {
                            NetworkMessage::PlayerShoot { weapon_type, .. } => {
                                assert(spec_encode(m)[49] == spec_weapon_byte(weapon_type));
                            },
                            _ => {},
                        }
                    }
                }
            }
            return None;
        }
        let weapon_type = if wb == 0 {
            WeaponType::Pistol
        } else if wb == 1 {
            WeaponType::Rifle
        } else {
            WeaponType::Shotgun
        };
        let msg = NetworkMessage::PlayerShoot { origin, direction, weapon_type };
        proof {
            assert(b@ =~= spec_encode(msg));
            assert forall|m: NetworkMessage| b@ == #[trigger] spec_encode(m) implies m == msg by {
                lemma_encode_injective(m, msg);
            }
        }
        return Some(msg);
    }
    if tag == 6 && n == 33 {
        let position = read_vec3(b, 1);
        let damage = read_i64_field(b, 25);
        let msg = NetworkMessage::ProjectileHit { position, damage };
        proof {
            assert(b@ =~= spec_encode(msg));
            assert forall|m: NetworkMessage| b@ == #[trigger] spec_encode(m) implies m == msg by {
                lemma_encode_injective(m, msg);
            }
        }
        return Some(msg);
    }
    if tag == 7 && n == 25 {
        let entity_id = read_u64_field(b, 1);
        let current_health = read_i64_field(b, 9);
        let max_health = read_i64_field(b, 17);
        let msg = NetworkMessage::HealthUpdate { entity_id, current_health, max_health };
        proof {
            assert(b@ =~= spec_encode(msg));
            assert forall|m: NetworkMessage| b@ == #[trigger] spec_encode(m) implies m == msg by {
                lemma_encode_injective(m, msg);
            }
        }
        return Some(msg);
    }
    if tag == 8 && n == 18 {
        let entity_id = read_u64_field(b, 1);
        let flag = b[9];
        let value = read_u64_field(b, 10);
        if flag > 1 || (flag == 0 && value != 0) {
            proof {
                assert forall|m: NetworkMessage| b@ != #[trigger] spec_encode(m) by {
                    lemma_encode_shape(m);
                    if b@ == spec_encode(m) {
                        match m {
                            NetworkMessage::PlayerDied { killer_id, .. } => {
                                assert(spec_encode(m)[9] == spec_opt_flag(killer_id));
                                assert(spec_encode(m).subrange(10, 18) =~= spec_u64_le(
                                    spec_opt_value(killer_id),
                                ));
                                lemma_u64_le_injective(value, spec_opt_value(killer_id));
                            },
                            _ => {},
                        }
                    }
                }
            }
            return None;
        }
        let killer_id = if flag == 1 {
            Some(value)
        } else {
            None
        };
        let msg = NetworkMessage::PlayerDied { entity_id, killer_id };
        proof {
            assert(b@ =~= spec_encode(msg));
            assert forall|m: NetworkMessage| b@ == #[trigger] spec_encode(m) implies m == msg by {
                lemma_encode_injective(m, msg);
            }
        }
        return Some(msg);
    }
    if tag == 9 && n == 33 {
        let entity_id = read_u64_field(b, 1);
        let position = read_vec3(b, 9);
        let msg = NetworkMessage::PlayerRespawn { entity_id, position };
        proof {
            assert(b@ =~= spec_encode(msg));
            assert forall|m: NetworkMessage| b@ == #[trigger] spec_encode(m) implies m == msg by {
                lemma_encode_injective(m, msg);
            }
        }
        return Some(msg);
    }
    proof {
        assert forall|m: NetworkMessage| b@ != #[trigger] spec_encode(m) by {
            lemma_encode_shape(m);
        }
    }
    None
}

} // verus!
