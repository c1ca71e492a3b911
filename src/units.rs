//! Units, fixed-point helpers and the three-component vector type.
use vstd::prelude::*;

verus! {

/// Angle units in one full revolution.
pub const TURN: u64 = 3_600_000_000_000_000_000;

/// Angle units in one radian, rounded down (`TURN / 2π`).
pub const TURN_PER_RADIAN: u64 = 572_957_795_130_823_208;

/// Fixed-point representation of 1 for sines, cosines and eccentricities.
pub const TRIG_ONE: i64 = 1_073_741_824;

/// Length micro-units in one simulation unit.
pub const MICROS_PER_UNIT: u64 = 1_000_000;

/// Microseconds in one second.
pub const MICROS_PER_SECOND: i64 = 1_000_000;

/// Seconds in one day.
pub const SECONDS_PER_DAY: u64 = 86_400;

/// Bound on the magnitude of every coordinate of a local orbit offset.
pub const LOCAL_LIMIT: i64 = 70_368_744_177_664;

/// Bound on the number of bodies of one simulation; with `LOCAL_LIMIT` it keeps
/// every absolute coordinate below `2^61`.
pub const MAX_BODIES: usize = 32_768;

/// Bound on the magnitude of every absolute (world) coordinate.
pub const WORLD_LIMIT: i64 = 2_305_843_009_213_693_952;

/// A point or offset in micro-units.
#[derive(Clone, Copy, Debug, PartialEq, Eq, Structural)]
pub struct Vec3 {
    pub x: i64,
    pub y: i64,
    pub z: i64,
}

/// Every coordinate of `v` lies in `[-lim, lim]`.
pub open spec fn within(v: Vec3, lim: int) -> bool {
    &&& -lim <= v.x <= lim
    &&& -lim <= v.y <= lim
    &&& -lim <= v.z <= lim
}

/// The vector as a triple of unbounded integers.
pub open spec fn triple(v: Vec3) -> (int, int, int) {
    (v.x as int, v.y as int, v.z as int)
}

/// The componentwise difference `a - b`, over unbounded integers.
pub open spec fn diff_of(a: Vec3, b: Vec3) -> (int, int, int) {
    (a.x - b.x, a.y - b.y, a.z - b.z)
}

/// The squared Euclidean length of an integer triple.
pub open spec fn norm_sq(t: (int, int, int)) -> int {
    t.0 * t.0 + t.1 * t.1 + t.2 * t.2
}

/// `r` is the integer square root of `n`: the largest integer whose square is at most `n`.
pub open spec fn is_isqrt(n: int, r: int) -> bool {
    0 <= r && r * r <= n < (r + 1) * (r + 1)
}

/// An angle reduced into `[0, TURN)`.
pub open spec fn wrap_turn(a: int) -> int {
    a % (TURN as int)
}

impl Vec3 {
    /// The origin.
    pub fn zero() -> (r: Vec3)
        ensures
            r == (Vec3 { x: 0, y: 0, z: 0 }),
    {
        Vec3 { x: 0, y: 0, z: 0 }
    }

    /// Componentwise difference `self - o`.
    pub fn sub(&self, o: &Vec3) -> (r: Vec3)
        requires
            within(*self, WORLD_LIMIT as int),
            within(*o, WORLD_LIMIT as int),
        ensures
            triple(r) == diff_of(*self, *o),
            within(r, 2 * WORLD_LIMIT),
    {
        Vec3 { x: self.x - o.x, y: self.y - o.y, z: self.z - o.z }
    }
}

/// Integer square root, by bisection.
pub fn isqrt(n: u128) -> (r: u64)
    ensures
        is_isqrt(n as int, r as int),
{
    let mut lo: u128 = 0;
    let mut hi: u128 = 0x1_0000_0000_0000_0000;
    assert(hi * hi > n) by (nonlinear_arith)
        requires
            hi == 0x1_0000_0000_0000_0000u128,
            n <= u128::MAX,
    ;
    while hi - lo > 1
        invariant
            lo < hi <= 0x1_0000_0000_0000_0000,
            lo * lo <= n,
            n < hi * hi,
        decreases hi - lo,
    {
        let mid: u128 = lo + (hi - lo) / 2;
        assert(lo < mid < hi);
        assert(mid * mid < 0x1_0000_0000_0000_0000_0000_0000_0000_0000) by (nonlinear_arith)
            requires
                mid < 0x1_0000_0000_0000_0000,
        ;
        if mid * mid <= n {
            lo = mid;
        } else {
            hi = mid;
        }
    }
    assert(hi == lo + 1);
    lo as u64
}

/// Reduces an angle in `[0, 2 * TURN)` into `[0, TURN)`.
pub fn wrap_angle(a: u64) -> (r: u64)
    requires
        a < 2 * (TURN as int),
    ensures
        r == wrap_turn(a as int),
        r < TURN,
{
    if a >= TURN {
        a - TURN
    } else {
        a
    }
}

/// `(a + d) mod TURN` for an angle `a` in `[0, TURN)` and any signed offset `d`.
pub fn add_angle(a: u64, d: i128) -> (r: u64)
    requires
        a < TURN,
    ensures
        r == wrap_turn(a + d),
        r < TURN,
{
    let t: i128 = TURN as i128;
    let m: i128 = match d.checked_rem_euclid(t) {
        Some(v) => v,
        None => 0,
    };
    assert(m == (d as int) % (TURN as int));
    let s: i128 = a as i128 + m;
    let r: u64 = if s >= t {
        (s - t) as u64
    } else {
        s as u64
    };
    assert(r == wrap_turn(a + d)) by {
        vstd::arithmetic::div_mod::lemma_add_mod_noop_right(a as int, d as int, TURN as int);
        if s >= t {
            vstd::arithmetic::div_mod::lemma_mod_sub_multiples_vanish(s as int, TURN as int);
            vstd::arithmetic::div_mod::lemma_small_mod((s - t) as nat, TURN as nat);
        } else {
            vstd::arithmetic::div_mod::lemma_small_mod(s as nat, TURN as nat);
        }
    }
    r
}

} // verus!
