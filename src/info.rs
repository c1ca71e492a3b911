//! Derived quantities for display: orbital period and instantaneous orbital speed.
use vstd::prelude::*;
use crate::units::{TURN, TURN_PER_RADIAN, LOCAL_LIMIT, Vec3, within, triple, norm_sq, is_isqrt, isqrt};
use crate::kepler::ORBIT_LIMIT;
use crate::body::SPEED_LIMIT;

verus! {

/// Fixed-point scale of the square-root factor in the speed formula (`2^20`).
pub const SPEED_ROOT_ONE: u128 = 1_048_576;

pub open spec fn abs_of(x: int) -> int {
    if x < 0 { -x } else { x }
}

/// The orbital period in simulated seconds, `TURN / |n|` (one revolution at the
/// mean rate), or `None` for a body without orbital motion.
pub fn orbital_period_seconds(orbit_speed: i64) -> (r: Option<u64>)
    ensures
        r is None <==> orbit_speed == 0,
        r matches Some(p) ==> p == (TURN as int) / abs_of(orbit_speed as int),
{
    if orbit_speed == 0 {
        None
    } else {
        let n: u64 = if orbit_speed < 0 {
            (0i128 - orbit_speed as i128) as u64
        } else {
            orbit_speed as u64
        };
        Some(TURN / n)
    }
}

/// Distance of a local offset from its focus, `⌊√(x² + y² + z²)⌋`.
pub fn local_distance(v: &Vec3) -> (r: u64)
    requires
        within(*v, LOCAL_LIMIT as int),
    ensures
        is_isqrt(norm_sq(triple(*v)), r as int),
{
    let x: i128 = v.x as i128;
    let y: i128 = v.y as i128;
    let z: i128 = v.z as i128;
    assert(0 <= x * x <= 0x1_0000_0000_0000_0000_0000_0000) by (nonlinear_arith)
        requires
            -0x4000_0000_0000 <= x <= 0x4000_0000_0000,
    ;
    assert(0 <= y * y <= 0x1_0000_0000_0000_0000_0000_0000) by (nonlinear_arith)
        requires
            -0x4000_0000_0000 <= y <= 0x4000_0000_0000,
    ;
    assert(0 <= z * z <= 0x1_0000_0000_0000_0000_0000_0000) by (nonlinear_arith)
        requires
            -0x4000_0000_0000 <= z <= 0x4000_0000_0000,
    ;
    isqrt((x * x + y * y + z * z) as u128)
}

/// The mean orbital speed `|n|·a` in micro-units per second, with `n` converted from
/// angle units to radians (rounded down).
pub open spec fn mean_orbit_speed(orbit_speed: int, a: int) -> int {
    (abs_of(orbit_speed) * a) / (TURN_PER_RADIAN as int)
}

/// The vis-viva factor `√(|2a − r| / r)` in fixed point: `s` is the integer square
/// root of `|2a − r|·2^40 / r`.
pub open spec fn vis_viva_root(a: int, r: int, s: int) -> bool {
    is_isqrt((abs_of(2 * a - r) * (SPEED_ROOT_ONE as int) * (SPEED_ROOT_ONE as int)) / r, s)
}

/// Instantaneous orbital speed by the vis-viva relation `v = n·a·√(2a/r − 1)`, in
/// micro-units per second, for mean rate `orbit_speed`, semi-major axis `a` and
/// current distance `r` from the parent; 0 for a stationary body or at `r = 0`.
pub fn orbital_speed(orbit_speed: i64, a: u64, r: u64) -> (v: u128)
    requires
        a <= ORBIT_LIMIT,
        r <= 16 * ORBIT_LIMIT,
        -SPEED_LIMIT <= orbit_speed <= SPEED_LIMIT,
    ensures
        (a == 0 || r == 0) ==> v == 0,
        (a > 0 && r > 0) ==> exists|s: int| vis_viva_root(a as int, r as int, s)
            && v == (mean_orbit_speed(orbit_speed as int, a as int) * s) / (SPEED_ROOT_ONE as int),
{
    if a == 0 || r == 0 {
        return 0;
    }
    let n: u128 = if orbit_speed < 0 {
        (0i128 - orbit_speed as i128) as u128
    } else {
        orbit_speed as u128
    };
    assert(n * a <= 0x400_0000_0000_0000_0000_0000_0000) by (nonlinear_arith)
        requires
            n <= 0x4000_0000_0000_0000,
            a <= 0x1000_0000_0000,
    ;
    let w: u128 = n * a as u128 / TURN_PER_RADIAN as u128;
    assert(w <= 0x1_0000_0000_0000) by {
        let na = n * a;
        vstd::arithmetic::div_mod::lemma_div_is_ordered_by_denominator(na as int,
            0x400_0000_0000_0000int, TURN_PER_RADIAN as int);
        vstd::arithmetic::div_mod::lemma_div_is_ordered(na as int, 0x400_0000_0000_0000_0000_0000_0000int,
            0x400_0000_0000_0000int);
        vstd::arithmetic::div_mod::lemma_div_multiples_vanish(0x1_0000_0000_0000int, 0x400_0000_0000_0000int);
        assert(0x400_0000_0000_0000int * 0x1_0000_0000_0000int == 0x400_0000_0000_0000_0000_0000_0000int);
    }
    let gap: u128 = if 2 * (a as u128) >= r as u128 {
        2 * (a as u128) - r as u128
    } else {
        r as u128 - 2 * (a as u128)
    };
    let one: u128 = SPEED_ROOT_ONE;
    let num: u128 = gap * one * one;
    let q: u128 = num / r as u128;
    assert(q <= num) by {
        vstd::arithmetic::div_mod::lemma_div_is_ordered_by_denominator(num as int, 1, r as int);
    }
    let s = isqrt(q);
    assert(s <= 0x1_0000_0000_0000) by (nonlinear_arith)
        requires
            s * s <= q,
            q <= 0x1_0000_0000_0000_0000_0000_0000,
    ;
    assert(w * s <= 0x1_0000_0000_0000_0000_0000_0000) by (nonlinear_arith)
        requires
            w <= 0x1_0000_0000_0000,
            s <= 0x1_0000_0000_0000,
    ;
    let v = w * s as u128 / one;
    assert(vis_viva_root(a as int, r as int, s as int));
    v
}

} // verus!
