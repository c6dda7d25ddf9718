//! Fixed-point arithmetic for the simulation.
//!
//! A scalar is an `i64` holding thousandths of a world unit (one metre is
//! `FIX_ONE`); an angle is an `i64` in milliradians. Every operation here is
//! exact integer arithmetic, so a computation gives the same bits on client
//! and server, which is what prediction needs to agree with authority.

use vstd::prelude::*;
use vstd::arithmetic::div_mod::{
    lemma_div_is_ordered, lemma_div_multiples_vanish, lemma_small_mod,
    lemma_mod_sub_multiples_vanish,
};

verus! {

/// One world unit (one metre), in fixed-point ticks.
pub const FIX_ONE: i64 = 1000;

/// The world's coordinate and speed bound: every stored coordinate and
/// velocity component is clamped into `[-FIX_LIMIT, FIX_LIMIT]`, which keeps
/// every intermediate of the simulation far from `i64` overflow.
pub const FIX_LIMIT: i64 = 1_000_000_000;

/// Pi in milliradians, as this model defines it.
pub const PI_MRAD: i64 = 3142;

/// A full turn in milliradians (`2 * PI_MRAD`).
pub const TWO_PI_MRAD: i64 = 6284;

/// A quarter turn in milliradians.
pub const HALF_PI_MRAD: i64 = 1571;

/// Truncating (round-toward-zero) division, the semantics of `/` on `i64`.
pub open spec fn tdiv(a: int, b: int) -> int
    recommends
        b > 0,
{
    if a >= 0 {
        a / b
    } else {
        -((-a) / b)
    }
}

/// Scale a double-width fixed-point product back down.
pub open spec fn spec_scaled(a: int) -> int {
    tdiv(a, 1000)
}

/// The product of two fixed-point scalars.
pub open spec fn spec_fix_mul(a: int, b: int) -> int {
    spec_scaled(a * b)
}

/// Clamp into the world bound.
pub open spec fn spec_clamp(x: int) -> int {
    if x < -FIX_LIMIT {
        -FIX_LIMIT as int
    } else if x > FIX_LIMIT {
        FIX_LIMIT as int
    } else {
        x
    }
}

/// Fixed-point multiply: `a * b / 1000`, rounded toward zero.
pub fn fix_mul(a: i64, b: i64) -> (r: i64)
    requires
        -3_000_000_000 <= a <= 3_000_000_000,
        -3_000_000_000 <= b <= 3_000_000_000,
    ensures
        r == spec_fix_mul(a as int, b as int),
{
    proof {
        assert(-9_000_000_000_000_000_000 <= a * b <= 9_000_000_000_000_000_000)
            by (nonlinear_arith)
            requires
                -3_000_000_000 <= a <= 3_000_000_000,
                -3_000_000_000 <= b <= 3_000_000_000,
        ;
    }
    (a * b) / 1000
}

/// Clamp a scalar into the world bound `[-FIX_LIMIT, FIX_LIMIT]`.
pub fn clamp_fix(x: i64) -> (r: i64)
    ensures
        r == spec_clamp(x as int),
        -FIX_LIMIT <= r <= FIX_LIMIT,
{
    if x < -FIX_LIMIT {
        -FIX_LIMIT
    } else if x > FIX_LIMIT {
        FIX_LIMIT
    } else {
        x
    }
}

/// The integer square root: the largest `r` with `r * r <= n`.
pub open spec fn sqrt_floor(n: nat) -> nat
    decreases n,
{
    if n == 0 {
        0
    } else {
        let r = sqrt_floor((n - 1) as nat);
        if (r + 1) * (r + 1) <= n {
            r + 1
        } else {
            r
        }
    }
}

pub proof fn lemma_sqrt_floor_bounds(n: nat)
    ensures
        sqrt_floor(n) * sqrt_floor(n) <= n,
        n < (sqrt_floor(n) + 1) * (sqrt_floor(n) + 1),
    decreases n,
{
    if n == 0 {
        assert(sqrt_floor(0) == 0) by {
            reveal_with_fuel(sqrt_floor, 1);
        }
        assert(sqrt_floor(n) * sqrt_floor(n) <= n) by (nonlinear_arith)
            requires
                sqrt_floor(n) == 0,
                n == 0,
        ;
        assert(n < (sqrt_floor(n) + 1) * (sqrt_floor(n) + 1)) by (nonlinear_arith)
            requires
                sqrt_floor(n) == 0,
                n == 0,
        ;
    } else {
        lemma_sqrt_floor_bounds((n - 1) as nat);
        let r0 = sqrt_floor((n - 1) as nat);
        assert(sqrt_floor(n) == if (r0 + 1) * (r0 + 1) <= n {
            r0 + 1
        } else {
            r0
        }) by {
            reveal_with_fuel(sqrt_floor, 2);
        }
        if (r0 + 1) * (r0 + 1) <= n {
            assert(n == (r0 + 1) * (r0 + 1));
            assert(n < (r0 + 2) * (r0 + 2)) by (nonlinear_arith)
                requires
                    n == (r0 + 1) * (r0 + 1),
            ;
        }
    }
}

/// `sqrt_floor` is the only value between the two square bounds.
pub proof fn lemma_sqrt_floor_unique(n: nat, r: nat)
    requires
        r * r <= n,
        n < (r + 1) * (r + 1),
    ensures
        r == sqrt_floor(n),
{
    lemma_sqrt_floor_bounds(n);
    let s = sqrt_floor(n);
    if r < s {
        assert((r + 1) * (r + 1) <= s * s) by (nonlinear_arith)
            requires
                r + 1 <= s,
        ;
    } else if s < r {
        assert((s + 1) * (s + 1) <= r * r) by (nonlinear_arith)
            requires
                s + 1 <= r,
        ;
    }
}

/// Squares are monotone, so a square below `n` bounds its root by `sqrt_floor(n)`.
pub proof fn lemma_sqrt_floor_dominates(n: nat, a: nat)
    requires
        a * a <= n,
    ensures
        a <= sqrt_floor(n),
{
    lemma_sqrt_floor_bounds(n);
    let s = sqrt_floor(n);
    if s < a {
        assert((s + 1) * (s + 1) <= a * a) by (nonlinear_arith)
            requires
                s + 1 <= a,
        ;
    }
}

/// Integer square root by bisection.
pub fn isqrt(n: u64) -> (r: u64)
    ensures
        r == sqrt_floor(n as nat),
{
    if n == 0 {
        proof {
            reveal_with_fuel(sqrt_floor, 1);
            assert(sqrt_floor(0) == 0);
        }
        return 0;
    }
    let mut lo: u64 = 0;
    let mut hi: u64 = 0x1_0000_0000;
    proof {
        assert((hi as nat) * (hi as nat) > n as nat) by (nonlinear_arith)
            requires
                hi == 0x1_0000_0000u64,
                n <= 0xffff_ffff_ffff_ffffu64,
        ;
    }
    while lo + 1 < hi
        invariant
            lo < hi,
            hi <= 0x1_0000_0000,
            (lo as nat) * (lo as nat) <= n as nat,
            (hi as nat) * (hi as nat) > n as nat,
        decreases hi - lo,
    {
        let mid: u64 = lo + (hi - lo) / 2;
        proof {
            assert((mid as nat) * (mid as nat) <= 0x1_0000_0000_0000_0000) by (nonlinear_arith)
                requires
                    mid <= 0x1_0000_0000u64,
            ;
        }
        let sq: u128 = (mid as u128) * (mid as u128);
        if sq <= n as u128 {
            lo = mid;
        } else {
            hi = mid;
        }
    }
    proof {
        lemma_sqrt_floor_unique(n as nat, lo as nat);
    }
    lo
}

/// The length of a 2-D fixed-point vector, rounded down.
pub open spec fn spec_len2(x: int, z: int) -> int {
    sqrt_floor((x * x + z * z) as nat) as int
}

/// First component of the normalized 2-D vector (zero stays zero).
pub open spec fn spec_norm2_x(x: int, z: int) -> int {
    if x == 0 && z == 0 {
        0
    } else {
        tdiv(x * 1000, spec_len2(x, z))
    }
}

/// Second component of the normalized 2-D vector (zero stays zero).
pub open spec fn spec_norm2_z(x: int, z: int) -> int {
    if x == 0 && z == 0 {
        0
    } else {
        tdiv(z * 1000, spec_len2(x, z))
    }
}

/// Truncating division shrinks magnitudes: a numerator within `m * b` gives
/// a quotient within `m`.
pub proof fn lemma_tdiv_bound(a: int, b: int, m: int)
    requires
        b > 0,
        m >= 0,
        -(m * b) <= a <= m * b,
    ensures
        -m <= tdiv(a, b) <= m,
{
    assert(m * b == b * m) by (nonlinear_arith);
    lemma_div_multiples_vanish(m, b);
    if a >= 0 {
        lemma_div_is_ordered(a, b * m, b);
        vstd::arithmetic::div_mod::lemma_div_pos_is_pos(a, b);
        assert(a / b <= (b * m) / b);
    } else {
        let c = -a;
        lemma_div_is_ordered(c, b * m, b);
        vstd::arithmetic::div_mod::lemma_div_pos_is_pos(c, b);
        assert(c / b <= (b * m) / b);
    }
}

proof fn lemma_tdiv_unit_bound(a: int, len: int)
    requires
        len > 0,
        -len <= a <= len,
    ensures
        -1000 <= tdiv(a * 1000, len) <= 1000,
{
    if a >= 0 {
        assert(a * 1000 <= len * 1000) by (nonlinear_arith)
            requires
                a <= len,
        ;
        lemma_div_is_ordered(a * 1000, len * 1000, len);
        lemma_div_multiples_vanish(1000, len);
        assert(a * 1000 >= 0) by (nonlinear_arith)
            requires
                a >= 0,
        ;
        assert(a * 1000 / len >= 0) by {
            vstd::arithmetic::div_mod::lemma_div_pos_is_pos(a * 1000, len);
        }
    } else {
        let b = -a;
        assert(b * 1000 <= len * 1000) by (nonlinear_arith)
            requires
                b <= len,
        ;
        lemma_div_is_ordered(b * 1000, len * 1000, len);
        lemma_div_multiples_vanish(1000, len);
        assert(b * 1000 >= 0) by (nonlinear_arith)
            requires
                b >= 0,
        ;
        assert(b * 1000 / len >= 0) by {
            vstd::arithmetic::div_mod::lemma_div_pos_is_pos(b * 1000, len);
        }
        assert(-(a * 1000) == b * 1000);
    }
}

/// Normalize a 2-D vector to (fixed-point) unit length; the zero vector is
/// left as zero rather than divided by its own zero length.
pub fn normalize2(x: i64, z: i64) -> (r: (i64, i64))
    requires
        -2_000_000 <= x <= 2_000_000,
        -2_000_000 <= z <= 2_000_000,
    ensures
        r.0 == spec_norm2_x(x as int, z as int),
        r.1 == spec_norm2_z(x as int, z as int),
        -1000 <= r.0 <= 1000,
        -1000 <= r.1 <= 1000,
{
    if x == 0 && z == 0 {
        return (0, 0);
    }
    proof {
        assert(x * x >= 0 && z * z >= 0 && x * x + z * z > 0 && x * x + z * z
            <= 8_000_000_000_000 && x * x >= x && x * x >= -x && z * z >= z && z * z
            >= -z) by (nonlinear_arith)
            requires
                -2_000_000 <= x <= 2_000_000,
                -2_000_000 <= z <= 2_000_000,
                !(x == 0 && z == 0),
        ;
    }
    let sq: u64 = (x * x + z * z) as u64;
    let len_u: u64 = isqrt(sq);
    proof {
        assert(sq == x * x + z * z);
        lemma_sqrt_floor_bounds(sq as nat);
        assert((len_u as nat) * (len_u as nat) <= sq as nat);
        assert((sq as nat) < ((len_u as nat) + 1) * ((len_u as nat) + 1));
        if len_u == 0 {
            assert((sq as nat) < 1nat * 1nat);
            assert(false);
        }
        assert(len_u < 0x1_0000_0000) by (nonlinear_arith)
            requires
                (len_u as nat) * (len_u as nat) <= sq as nat,
                sq <= 8_000_000_000_000u64,
        ;
        assert(len_u as int == spec_len2(x as int, z as int));
        let ax: int = if x >= 0 { x as int } else { -(x as int) };
        assert(ax * ax <= sq) by (nonlinear_arith)
            requires
                ax == (if x >= 0 { x as int } else { -(x as int) }),
                sq == x * x + z * z,
                z * z >= 0,
        ;
        lemma_sqrt_floor_dominates(sq as nat, ax as nat);
        let az: int = if z >= 0 { z as int } else { -(z as int) };
        assert(az * az <= sq) by (nonlinear_arith)
            requires
                az == (if z >= 0 { z as int } else { -(z as int) }),
                sq == x * x + z * z,
                x * x >= 0,
        ;
        lemma_sqrt_floor_dominates(sq as nat, az as nat);
        lemma_tdiv_unit_bound(x as int, len_u as int);
        lemma_tdiv_unit_bound(z as int, len_u as int);
    }
    let len: i64 = len_u as i64;
    let rx: i64 = (x * 1000) / len;
    let rz: i64 = (z * 1000) / len;
    (rx, rz)
}

/// An angle reduced into `[0, TWO_PI_MRAD)`; this is the Euclidean remainder.
pub open spec fn spec_angle_norm(a: int) -> int {
    a % 6284
}

/// Reduce an angle into one turn.
pub fn angle_norm(a: i64) -> (r: i64)
    ensures
        r == spec_angle_norm(a as int),
        0 <= r < 6284,
{
    let t = a % TWO_PI_MRAD;
    if t < 0 {
        proof {
            lemma_mod_sub_multiples_vanish(t + 6284, 6284);
            lemma_small_mod((t + 6284) as nat, 6284);
        }
        t + 6284
    } else {
        proof {
            lemma_small_mod(t as nat, 6284);
        }
        t
    }
}

/// The half-turn sine core: a rational approximation of `sin` on `[0, pi]`,
/// in fixed-point thousandths. It is exactly 0 at both ends and exactly 1000
/// at the quarter turn.
pub open spec fn spec_sin_half(x: int) -> int {
    (16000 * (x * (3142 - x))) / (49_360_820 - 4 * (x * (3142 - x)))
}

/// The full-turn sine of an angle in milliradians, in thousandths.
pub open spec fn spec_sin(a: int) -> int {
    let x = spec_angle_norm(a);
    if x <= 3142 {
        spec_sin_half(x)
    } else {
        -spec_sin_half(x - 3142)
    }
}

/// The cosine, as the sine shifted by a quarter turn.
pub open spec fn spec_cos(a: int) -> int {
    spec_sin(a + 1571)
}

fn sin_half(x: i64) -> (r: i64)
    requires
        0 <= x <= 3142,
    ensures
        r == spec_sin_half(x as int),
        0 <= r <= 1000,
{
    proof {
        assert(0 <= x * (3142 - x) <= 2_468_041) by (nonlinear_arith)
            requires
                0 <= x <= 3142,
        ;
    }
    let n: i64 = x * (3142 - x);
    let num: i64 = 16000 * n;
    let den: i64 = 49_360_820 - 4 * n;
    proof {
        assert(num <= 1000 * den);
        lemma_div_is_ordered(num as int, 1000 * den, den as int);
        lemma_div_multiples_vanish(1000, den as int);
        vstd::arithmetic::div_mod::lemma_div_pos_is_pos(num as int, den as int);
    }
    num / den
}

/// The sine of any angle, in fixed-point thousandths.
pub fn sin_fix(a: i64) -> (r: i64)
    ensures
        r == spec_sin(a as int),
        -1000 <= r <= 1000,
{
    let x = angle_norm(a);
    if x <= 3142 {
        sin_half(x)
    } else {
        -sin_half(x - 3142)
    }
}

/// The cosine of any angle, in fixed-point thousandths.
pub fn cos_fix(a: i64) -> (r: i64)
    requires
        -9_000_000_000_000_000_000 <= a <= 9_000_000_000_000_000_000 - 1571,
    ensures
        r == spec_cos(a as int),
        -1000 <= r <= 1000,
{
    sin_fix(a + HALF_PI_MRAD)
}

} // verus!
