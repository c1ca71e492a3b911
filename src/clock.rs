//! Simulation clock and the per-tick advance of orbital and spin angles.
use vstd::prelude::*;
use crate::units::{TURN, MICROS_PER_SECOND, SECONDS_PER_DAY, wrap_turn, add_angle};
use crate::body::{Body, SPEED_LIMIT};

verus! {

/// Default clamp of one wall-clock step, in microseconds (0.1 s).
pub const DEFAULT_MAX_STEP_US: i64 = 100_000;

/// Largest admissible clamp of one wall-clock step, in microseconds.
pub const MAX_STEP_LIMIT_US: i64 = 1_000_000;

/// Thousandths of the rate multiplier that stand for a rate of 1.
pub const SCALE_ONE: i64 = 1_000;

/// Bound on the magnitude of the rate multiplier, in thousandths (10^7 times real time).
pub const MAX_TIME_SCALE: i64 = 10_000_000_000;

/// Bound on the magnitude of the simulated time one tick adds, in microseconds.
pub const MAX_SCALED_STEP_US: i64 = 10_000_000_000_000;

/// Virtual time, advanced by clamped wall-clock steps times a rate multiplier.
#[derive(Clone, Copy, Debug, PartialEq, Eq, Structural)]
pub struct SimClock {
    /// Simulated time, microseconds since the Unix epoch.
    pub current_time_us: i64,
    /// Wall-clock reading of the previous tick, in microseconds.
    pub last_wall_us: i64,
    /// Rate multiplier in thousandths (1000 is real time, 500 half speed); 0 pauses,
    /// a negative value runs backwards.
    pub time_scale: i64,
    /// Clamp of one wall-clock step, in microseconds.
    pub max_step_us: i64,
}

/// The wall-clock step that a tick uses: the elapsed time clamped into `[0, max_step]`.
pub open spec fn clamped_step(elapsed: int, max_step: int) -> int {
    if elapsed < 0 {
        0
    } else if elapsed > max_step {
        max_step
    } else {
        elapsed
    }
}

/// The simulated time that a tick adds: the clamped step times the rate (given in
/// thousandths), rounded down.
pub open spec fn scaled_step(elapsed: int, max_step: int, scale: int) -> int {
    (clamped_step(elapsed, max_step) * scale) / (SCALE_ONE as int)
}

/// `a + b` saturated to the range of `i64`.
pub open spec fn saturating_sum(a: int, b: int) -> int {
    if a + b > i64::MAX {
        i64::MAX as int
    } else if a + b < i64::MIN {
        i64::MIN as int
    } else {
        a + b
    }
}

/// The angle that a rate (angle units per second) sweeps in `dt` microseconds,
/// rounded down.
pub open spec fn swept(rate: int, dt: int) -> int {
    (rate * dt) / (MICROS_PER_SECOND as int)
}

/// Angular rate of one revolution per period (thousandths of a day, either sign), in
/// angle units per second: one turn per `|period|`, 0 for a zero period.
pub open spec fn rate_of_period(period_milli_days: int) -> int {
    if period_milli_days == 0 {
        0
    } else {
        let p = if period_milli_days < 0 { -period_milli_days } else { period_milli_days };
        ((TURN as int) * 1000) / (p * (SECONDS_PER_DAY as int))
    }
}

/// A requested rate multiplier clamped into `[-MAX_TIME_SCALE, MAX_TIME_SCALE]`.
pub open spec fn clamp_scale(scale: int) -> int {
    if scale > MAX_TIME_SCALE {
        MAX_TIME_SCALE as int
    } else if scale < -MAX_TIME_SCALE {
        -MAX_TIME_SCALE
    } else {
        scale
    }
}

impl SimClock {
    pub open spec fn wf(&self) -> bool {
        &&& 0 < self.max_step_us <= MAX_STEP_LIMIT_US
        &&& -MAX_TIME_SCALE <= self.time_scale <= MAX_TIME_SCALE
    }

    /// A clock at simulated time `start_us`, last read at wall-clock `wall_us`, at
    /// rate 1 and with the default step clamp.
    pub fn new(start_us: i64, wall_us: i64) -> (r: SimClock)
        ensures
            r.wf(),
            r == (SimClock {
                current_time_us: start_us,
                last_wall_us: wall_us,
                time_scale: SCALE_ONE,
                max_step_us: DEFAULT_MAX_STEP_US,
            }),
    {
        SimClock {
            current_time_us: start_us,
            last_wall_us: wall_us,
            time_scale: SCALE_ONE,
            max_step_us: DEFAULT_MAX_STEP_US,
        }
    }

    /// Sets the rate multiplier, clamped into `[-MAX_TIME_SCALE, MAX_TIME_SCALE]`.
    pub fn set_time_scale(&mut self, scale: i64)
        requires
            old(self).wf(),
        ensures
            final(self).wf(),
            final(self).time_scale == clamp_scale(scale as int),
            final(self).current_time_us == old(self).current_time_us,
            final(self).last_wall_us == old(self).last_wall_us,
            final(self).max_step_us == old(self).max_step_us,
    {
        self.time_scale = if scale > MAX_TIME_SCALE {
            MAX_TIME_SCALE
        } else if scale < -MAX_TIME_SCALE {
            -MAX_TIME_SCALE
        } else {
            scale
        };
    }

    /// Advances the clock to wall-clock reading `now_us` and returns the simulated
    /// time added: the elapsed wall-clock time clamped into `[0, max_step_us]`, times
    /// the rate multiplier.
    pub fn tick(&mut self, now_us: i64) -> (dt: i64)
        requires
            old(self).wf(),
        ensures
            final(self).wf(),
            dt == scaled_step(now_us - old(self).last_wall_us, old(self).max_step_us as int,
                old(self).time_scale as int),
            -MAX_SCALED_STEP_US <= dt <= MAX_SCALED_STEP_US,
            final(self).last_wall_us == now_us,
            final(self).current_time_us == saturating_sum(old(self).current_time_us as int, dt as int),
            final(self).time_scale == old(self).time_scale,
            final(self).max_step_us == old(self).max_step_us,
    {
        let elapsed: i128 = now_us as i128 - self.last_wall_us as i128;
        let step: i64 = if elapsed < 0 {
            0
        } else if elapsed > self.max_step_us as i128 {
            self.max_step_us
        } else {
            elapsed as i64
        };
        assert(-MAX_SCALED_STEP_US * SCALE_ONE <= step * self.time_scale
            <= MAX_SCALED_STEP_US * SCALE_ONE) by (nonlinear_arith)
            requires
                0 <= step <= MAX_STEP_LIMIT_US,
                -MAX_TIME_SCALE <= self.time_scale <= MAX_TIME_SCALE,
                MAX_STEP_LIMIT_US == 1_000_000,
                MAX_TIME_SCALE == 10_000_000_000,
                MAX_SCALED_STEP_US == 10_000_000_000_000,
                SCALE_ONE == 1_000,
        ;
        let product: i128 = step as i128 * self.time_scale as i128;
        let q: i128 = match product.checked_div_euclid(SCALE_ONE as i128) {
            Some(v) => v,
            None => 0,
        };
        assert(-MAX_SCALED_STEP_US <= q <= MAX_SCALED_STEP_US) by {
            vstd::arithmetic::div_mod::lemma_div_is_ordered(product as int, MAX_SCALED_STEP_US * SCALE_ONE,
                SCALE_ONE as int);
            vstd::arithmetic::div_mod::lemma_div_is_ordered(-MAX_SCALED_STEP_US * SCALE_ONE, product as int,
                SCALE_ONE as int);
            vstd::arithmetic::div_mod::lemma_div_multiples_vanish(MAX_SCALED_STEP_US as int, SCALE_ONE as int);
            vstd::arithmetic::div_mod::lemma_div_multiples_vanish(-MAX_SCALED_STEP_US, SCALE_ONE as int);
        }
        let dt: i64 = q as i64;
        self.last_wall_us = now_us;
        let sum: i128 = self.current_time_us as i128 + dt as i128;
        self.current_time_us = if sum > i64::MAX as i128 {
            i64::MAX
        } else if sum < i64::MIN as i128 {
            i64::MIN
        } else {
            sum as i64
        };
        dt
    }
}

/// `wrap(angle + floor(rate·dt / 10^6))`: the angle after sweeping at `rate` for
/// `dt` microseconds.
pub fn advance_angle(angle: u64, rate: i64, dt: i64) -> (r: u64)
    requires
        angle < TURN,
        -SPEED_LIMIT <= rate <= SPEED_LIMIT,
        -MAX_SCALED_STEP_US <= dt <= MAX_SCALED_STEP_US,
    ensures
        r == wrap_turn(angle + swept(rate as int, dt as int)),
        r < TURN,
{
    assert(-0x400_0000_0000_0000_0000_0000_0000 <= rate * dt
        <= 0x400_0000_0000_0000_0000_0000_0000) by (nonlinear_arith)
        requires
            -0x4000_0000_0000_0000 <= rate <= 0x4000_0000_0000_0000,
            -0x1000_0000_0000 <= dt <= 0x1000_0000_0000,
    ;
    let p: i128 = rate as i128 * dt as i128;
    let d: i128 = match p.checked_div_euclid(MICROS_PER_SECOND as i128) {
        Some(v) => v,
        None => 0,
    };
    add_angle(angle, d)
}

/// Angular rate of one revolution per period (thousandths of a day), in angle units per second.
pub fn rate_for_period(period_milli_days: i64) -> (r: i64)
    ensures
        r == rate_of_period(period_milli_days as int),
        0 <= r <= SPEED_LIMIT,
{
    if period_milli_days == 0 {
        0
    } else {
        let p: u128 = if period_milli_days < 0 {
            (0i128 - period_milli_days as i128) as u128
        } else {
            period_milli_days as u128
        };
        assert(p * (SECONDS_PER_DAY as u128) <= 0x1_0000_0000_0000_0000_0000_0000) by (nonlinear_arith)
            requires
                p <= 0x1_0000_0000_0000_0000,
                SECONDS_PER_DAY == 86_400,
        ;
        let denom: u128 = p * SECONDS_PER_DAY as u128;
        assert(denom >= SECONDS_PER_DAY) by (nonlinear_arith)
            requires
                p >= 1,
                denom == p * (SECONDS_PER_DAY as u128),
        ;
        let num: u128 = TURN as u128 * 1000;
        let q: u128 = num / denom;
        assert(q <= num / (SECONDS_PER_DAY as u128)) by {
            vstd::arithmetic::div_mod::lemma_div_is_ordered_by_denominator(
                num as int, SECONDS_PER_DAY as int, denom as int);
        }
        q as i64
    }
}

impl Body {
    /// Fields of the two bodies other than the orbit, spin and cloud angles agree.
    pub open spec fn same_but_angles(&self, o: &Body) -> bool {
        &&& self.name == o.name
        &&& self.class == o.class
        &&& self.radius == o.radius
        &&& self.orbit_radius == o.orbit_radius
        &&& self.orbit_speed == o.orbit_speed
        &&& self.color == o.color
        &&& self.parent == o.parent
        &&& self.rotation_period == o.rotation_period
        &&& self.axial_tilt == o.axial_tilt
        &&& self.orbit_inclination == o.orbit_inclination
        &&& self.longitude_of_ascending_node == o.longitude_of_ascending_node
        &&& self.argument_of_periapsis == o.argument_of_periapsis
        &&& self.eccentricity == o.eccentricity
        &&& self.ring_radius == o.ring_radius
        &&& self.ring_inner_radius == o.ring_inner_radius
        &&& self.temperature == o.temperature
        &&& self.is_frozen == o.is_frozen
        &&& self.trail@ == o.trail@
        &&& self.last_trail_angle == o.last_trail_angle
    }

    /// Mean anomaly after a step of `dt` simulated microseconds: bodies with a parent
    /// sweep at `orbit_speed`; a root does not move.
    pub open spec fn next_orbit_angle(&self, dt: int) -> int {
        if self.parent.is_some() {
            wrap_turn(self.orbit_angle + swept(self.orbit_speed as int, dt))
        } else {
            self.orbit_angle as int
        }
    }

    /// Spin angle after a step of `dt` simulated microseconds.
    pub open spec fn next_rotation(&self, dt: int) -> int {
        if self.rotation_period != 0 {
            wrap_turn(self.current_rotation + swept(rate_of_period(self.rotation_period as int), dt))
        } else {
            self.current_rotation as int
        }
    }

    /// Cloud-layer angle after a step of `dt` simulated microseconds: a fifth of the
    /// spin rate, for a body with a cloud texture.
    pub open spec fn next_cloud_rotation(&self, dt: int) -> int {
        if self.rotation_period != 0 && self.textures.cloud.is_some() {
            wrap_turn(self.cloud_rotation + swept(rate_of_period(self.rotation_period as int) / 5, dt))
        } else {
            self.cloud_rotation as int
        }
    }

    /// Advances the mean anomaly, the spin and the cloud layer by `dt` simulated
    /// microseconds.
    pub fn advance(&mut self, dt: i64)
        requires
            old(self).wf(),
            -MAX_SCALED_STEP_US <= dt <= MAX_SCALED_STEP_US,
        ensures
            final(self).wf(),
            final(self).same_but_angles(old(self)),
            final(self).orbit_angle == old(self).next_orbit_angle(dt as int),
            final(self).current_rotation == old(self).next_rotation(dt as int),
            final(self).cloud_rotation == old(self).next_cloud_rotation(dt as int),
    {
        if self.parent.is_some() {
            self.orbit_angle = advance_angle(self.orbit_angle, self.orbit_speed, dt);
        }
        if self.rotation_period != 0 {
            let rate = rate_for_period(self.rotation_period);
            self.current_rotation = advance_angle(self.current_rotation, rate, dt);
            if self.textures.cloud.is_some() {
                self.cloud_rotation = advance_angle(self.cloud_rotation, rate / 5, dt);
            }
        }
    }
}

/// A wall-clock gap longer than the clamp advances the simulation exactly as much as
/// one tick of the clamp's length.
pub proof fn lemma_long_gap_is_one_clamped_step(elapsed: int, max_step: int, scale: int)
    requires
        0 < max_step <= elapsed,
    ensures
        scaled_step(elapsed, max_step, scale) == scaled_step(max_step, max_step, scale),
{
}

/// Every advanced angle is stored wrapped: whatever the start and the amount swept,
/// the result lies in `[0, TURN)`.
pub proof fn lemma_advanced_angle_in_range(angle: int, rate: int, dt: int)
    ensures
        0 <= wrap_turn(angle + swept(rate, dt)) < TURN,
{
    vstd::arithmetic::div_mod::lemma_mod_bound(angle + swept(rate, dt), TURN as int);
}

/// A body with zero orbital speed keeps its mean anomaly on every tick, whatever the
/// step; with its elements unchanged by the tick, its local offset stays the same.
pub proof fn lemma_still_body_keeps_angle(b: Body, dt: int)
    requires
        b.wf(),
        b.orbit_speed == 0,
    ensures
        b.next_orbit_angle(dt) == b.orbit_angle,
{
    assert(swept(0, dt) == 0);
    vstd::arithmetic::div_mod::lemma_small_mod(b.orbit_angle as nat, TURN as nat);
}

} // verus!
