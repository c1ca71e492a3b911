//! Kepler position solver: from mean anomaly and orbital elements to an offset
//! from the orbit's focus, in fixed point.
//!
//! The caller supplies the sines and cosines (as fixed-point values with
//! `TRIG_ONE` standing for 1); this module performs the eccentric-anomaly
//! correction and the three rotations exactly as integer arithmetic.
use vstd::prelude::*;
use crate::units::{TURN, TURN_PER_RADIAN, TRIG_ONE, LOCAL_LIMIT, Vec3, within, triple, wrap_turn, add_angle};

verus! {

/// Largest admissible semi-major axis, in micro-units: six times it stays within
/// `LOCAL_LIMIT`.
pub const ORBIT_LIMIT: u64 = 11_000_000_000_000;

/// Fixed-point sines and cosines that one evaluation of the solver needs.
#[derive(Clone, Copy, Debug, PartialEq, Eq, Structural)]
pub struct OrbitTrig {
    /// cos E, E the eccentric anomaly.
    pub cos_e: i64,
    /// sin E.
    pub sin_e: i64,
    /// cos ω, ω the argument of periapsis.
    pub cos_w: i64,
    /// sin ω.
    pub sin_w: i64,
    /// cos i, i the inclination.
    pub cos_i: i64,
    /// sin i.
    pub sin_i: i64,
    /// cos Ω, Ω the longitude of the ascending node.
    pub cos_o: i64,
    /// sin Ω.
    pub sin_o: i64,
    /// √(1 − e²).
    pub minor_ratio: i64,
}

/// A fixed-point value within `[-1, 1]`.
pub open spec fn unit_range(c: int) -> bool {
    -(TRIG_ONE as int) <= c <= TRIG_ONE as int
}

impl OrbitTrig {
    /// Every value is a fixed-point number in `[-1, 1]`, and √(1 − e²) is not negative.
    pub open spec fn wf(&self) -> bool {
        &&& unit_range(self.cos_e as int) &&& unit_range(self.sin_e as int)
        &&& unit_range(self.cos_w as int) &&& unit_range(self.sin_w as int)
        &&& unit_range(self.cos_i as int) &&& unit_range(self.sin_i as int)
        &&& unit_range(self.cos_o as int) &&& unit_range(self.sin_o as int)
        &&& 0 <= self.minor_ratio <= TRIG_ONE
    }
}

/// Fixed-point scaling back to the length unit: `n / TRIG_ONE`, rounded down.
pub open spec fn fd(n: int) -> int {
    n / (TRIG_ONE as int)
}

/// An admissible eccentricity: `0 <= e < 1` in fixed point.
pub open spec fn valid_eccentricity(e: int) -> bool {
    0 <= e < TRIG_ONE as int
}

/// The eccentric anomaly `E = M + e·sin M`, with `e·sin M` (radians) converted to
/// angle units and rounded down, and the sum wrapped into `[0, TURN)`.
pub open spec fn eccentric_anomaly_of(m: int, e: int, sin_m: int) -> int {
    wrap_turn(m + (e * sin_m * (TURN_PER_RADIAN as int)) / ((TRIG_ONE as int) * (TRIG_ONE as int)))
}

/// The periapsis-aligned orbit-plane coordinates `(a·(cos E − e), a·√(1−e²)·sin E)`.
pub open spec fn plane_of(a: int, e: int, t: OrbitTrig) -> (int, int) {
    (fd(a * (t.cos_e - e)), fd(fd(a * t.minor_ratio) * t.sin_e))
}

/// The orbit-plane point rotated by the argument of periapsis: `(x', z')`.
pub open spec fn periapsis_rotated(a: int, e: int, t: OrbitTrig) -> (int, int) {
    let (xr, zr) = plane_of(a, e, t);
    (fd(xr * t.cos_w + zr * t.sin_w), fd(-xr * t.sin_w + zr * t.cos_w))
}

/// The offset from the focus after inclination and longitude of the ascending node.
pub open spec fn offset_of(a: int, e: int, t: OrbitTrig) -> (int, int, int) {
    let (xw, zw) = periapsis_rotated(a, e, t);
    let y = fd(zw * t.sin_i);
    let zi = fd(zw * t.cos_i);
    (fd(xw * t.cos_o + zi * t.sin_o), y, fd(-xw * t.sin_o + zi * t.cos_o))
}

proof fn lemma_mul_bound(p: int, c: int, k: int)
    requires
        -k <= p <= k,
        unit_range(c),
    ensures
        -k * (TRIG_ONE as int) <= p * c <= k * (TRIG_ONE as int),
{
    assert(-k * (TRIG_ONE as int) <= p * c <= k * (TRIG_ONE as int)) by (nonlinear_arith)
        requires
            -k <= p <= k,
            -(TRIG_ONE as int) <= c <= TRIG_ONE as int,
    ;
}

proof fn lemma_fd_bound(n: int, k: int)
    requires
        0 <= k,
        -k * (TRIG_ONE as int) <= n <= k * (TRIG_ONE as int),
    ensures
        -k <= fd(n) <= k,
{
    let one = TRIG_ONE as int;
    vstd::arithmetic::div_mod::lemma_div_is_ordered(n, k * one, one);
    vstd::arithmetic::div_mod::lemma_div_is_ordered(-k * one, n, one);
    vstd::arithmetic::div_mod::lemma_div_multiples_vanish(k, one);
    vstd::arithmetic::div_mod::lemma_div_multiples_vanish(-k, one);
    assert(k * one == one * k) by (nonlinear_arith);
    assert(-k * one == one * (-k)) by (nonlinear_arith);
}

/// `n / TRIG_ONE` rounded down, for `|n| <= k·TRIG_ONE` with `k` small enough.
fn div_one(n: i128) -> (r: i64)
    requires
        -(LOCAL_LIMIT as int) * (TRIG_ONE as int) <= n <= (LOCAL_LIMIT as int) * (TRIG_ONE as int),
    ensures
        r == fd(n as int),
{
    proof {
        lemma_fd_bound(n as int, LOCAL_LIMIT as int);
    }
    let q: i128 = match n.checked_div_euclid(TRIG_ONE as i128) {
        Some(v) => v,
        None => 0,
    };
    q as i64
}

/// Eccentric anomaly from the mean anomaly `m`, the eccentricity `e` and `sin M`,
/// by the single first-order correction `E = M + e·sin M`.
pub fn eccentric_anomaly(m: u64, e: i64, sin_m: i64) -> (r: u64)
    requires
        m < TURN,
        valid_eccentricity(e as int),
        unit_range(sin_m as int),
    ensures
        r == eccentric_anomaly_of(m as int, e as int, sin_m as int),
        r < TURN,
{
    let one: i128 = TRIG_ONE as i128;
    proof {
        lemma_mul_bound(e as int, sin_m as int, TRIG_ONE as int);
    }
    let p: i128 = e as i128 * sin_m as i128;
    let tpr: i128 = TURN_PER_RADIAN as i128;
    assert(-0x100_0000_0000_0000_0000_0000_0000_0000 <= p * tpr
        <= 0x100_0000_0000_0000_0000_0000_0000_0000) by (nonlinear_arith)
        requires
            -0x1000_0000_0000_0000 <= p <= 0x1000_0000_0000_0000,
            0 <= tpr <= 0x1000_0000_0000_0000,
    ;
    let q: i128 = p * tpr;
    let shift: i128 = match q.checked_div_euclid(one * one) {
        Some(v) => v,
        None => 0,
    };
    add_angle(m, shift)
}

/// Position of a body in its parent's frame, for semi-major axis `a` (micro-units),
/// eccentricity `e` and the sines and cosines of the current eccentric anomaly and
/// of the three orientation angles.
pub fn orbit_offset(a: u64, e: i64, t: &OrbitTrig) -> (r: Vec3)
    requires
        a <= ORBIT_LIMIT,
        valid_eccentricity(e as int),
        t.wf(),
    ensures
        triple(r) == offset_of(a as int, e as int, *t),
        within(r, 6 * (a as int)),
        a == 0 ==> r == (Vec3 { x: 0, y: 0, z: 0 }),
{
    let ai: i128 = a as i128;
    let one: i128 = TRIG_ONE as i128;
    let ghost ag = a as int;
    proof {
        assert(-2 * ag * (TRIG_ONE as int) <= ag * (t.cos_e - e) <= 2 * ag * (TRIG_ONE as int))
            by (nonlinear_arith)
            requires
                0 <= ag,
                -2 * (TRIG_ONE as int) <= t.cos_e - e <= TRIG_ONE as int,
        ;
        lemma_fd_bound(ag * (t.cos_e - e), 2 * ag);
        lemma_mul_bound(ag, t.minor_ratio as int, ag);
        lemma_fd_bound(ag * t.minor_ratio, ag);
    }
    let xr = div_one(ai * (t.cos_e as i128 - e as i128));
    let m1 = div_one(ai * t.minor_ratio as i128);
    proof {
        lemma_mul_bound(m1 as int, t.sin_e as int, ag);
        lemma_fd_bound(m1 * t.sin_e, ag);
    }
    let zr = div_one(m1 as i128 * t.sin_e as i128);
    proof {
        lemma_mul_bound(xr as int, t.cos_w as int, 2 * ag);
        lemma_mul_bound(zr as int, t.sin_w as int, ag);
        lemma_mul_bound(xr as int, t.sin_w as int, 2 * ag);
        lemma_mul_bound(zr as int, t.cos_w as int, ag);
        lemma_fd_bound(xr * t.cos_w + zr * t.sin_w, 3 * ag);
        assert(-xr * t.sin_w == -(xr * t.sin_w)) by (nonlinear_arith);
        lemma_fd_bound(-xr * t.sin_w + zr * t.cos_w, 3 * ag);
    }
    let xw = div_one(xr as i128 * t.cos_w as i128 + zr as i128 * t.sin_w as i128);
    let zw = div_one(-(xr as i128) * t.sin_w as i128 + zr as i128 * t.cos_w as i128);
    proof {
        lemma_mul_bound(zw as int, t.sin_i as int, 3 * ag);
        lemma_mul_bound(zw as int, t.cos_i as int, 3 * ag);
        lemma_fd_bound(zw * t.sin_i, 3 * ag);
        lemma_fd_bound(zw * t.cos_i, 3 * ag);
    }
    let y = div_one(zw as i128 * t.sin_i as i128);
    let zi = div_one(zw as i128 * t.cos_i as i128);
    proof {
        lemma_mul_bound(xw as int, t.cos_o as int, 3 * ag);
        lemma_mul_bound(zi as int, t.sin_o as int, 3 * ag);
        lemma_mul_bound(xw as int, t.sin_o as int, 3 * ag);
        lemma_mul_bound(zi as int, t.cos_o as int, 3 * ag);
        lemma_fd_bound(xw * t.cos_o + zi * t.sin_o, 6 * ag);
        assert(-xw * t.sin_o == -(xw * t.sin_o)) by (nonlinear_arith);
        lemma_fd_bound(-xw * t.sin_o + zi * t.cos_o, 6 * ag);
    }
    let x = div_one(xw as i128 * t.cos_o as i128 + zi as i128 * t.sin_o as i128);
    let z = div_one(-(xw as i128) * t.sin_o as i128 + zi as i128 * t.cos_o as i128);
    Vec3 { x, y, z }
}

/// A circular orbit in the reference plane is a scaled circle: with zero
/// eccentricity and all three orientation angles at zero, the offset is
/// `(a·cos E, 0, a·sin E)`, rounded down, so its distance from the focus is `a` up to
/// the rounding of the supplied sine and cosine.
pub proof fn lemma_circular_orbit_in_plane(a: nat, t: OrbitTrig)
    requires
        t.wf(),
        t.minor_ratio == TRIG_ONE,
        t.cos_w == TRIG_ONE && t.sin_w == 0,
        t.cos_i == TRIG_ONE && t.sin_i == 0,
        t.cos_o == TRIG_ONE && t.sin_o == 0,
    ensures
        offset_of(a as int, 0, t) == (fd(a * t.cos_e), 0int, fd(a * t.sin_e)),
{
    let one = TRIG_ONE as int;
    vstd::arithmetic::div_mod::lemma_div_multiples_vanish(a as int, one);
    assert(a * one == one * a) by (nonlinear_arith);
    let (xr, zr) = plane_of(a as int, 0, t);
    assert(xr == fd(a * t.cos_e));
    assert(zr == fd(a * t.sin_e));
    vstd::arithmetic::div_mod::lemma_div_multiples_vanish(xr, one);
    vstd::arithmetic::div_mod::lemma_div_multiples_vanish(zr, one);
    assert(xr * one + zr * 0 == one * xr) by (nonlinear_arith);
    assert(-xr * 0 + zr * one == one * zr) by (nonlinear_arith);
}

} // verus!
