//! Trail history: angle-uniform sampling of each orbit and the bounded buffer of
//! past positions.
use vstd::prelude::*;
use crate::units::{TURN, LOCAL_LIMIT, Vec3, within, wrap_turn, wrap_angle};
use crate::body::Body;

verus! {

/// Default number of trail samples per full revolution.
pub const DEFAULT_SAMPLES_PER_ORBIT: u64 = 1000;

/// Default cap on the number of trail samples kept per body.
pub const DEFAULT_TRAIL_CAP: usize = 1000;

/// Trail density and length bound.
#[derive(Clone, Copy, Debug, PartialEq, Eq, Structural)]
pub struct TrailConfig {
    /// Samples per full revolution (`N`); the angular step is `TURN / N`.
    pub samples_per_orbit: u64,
    /// Most samples kept per body.
    pub cap: usize,
}

/// Angles at which new trail samples are due, and the trail angle to record after
/// appending them.
#[derive(Clone, Debug)]
pub struct TrailPlan {
    pub angles: Vec<u64>,
    pub next_last: u64,
}

impl TrailConfig {
    pub open spec fn wf(&self) -> bool {
        1 <= self.samples_per_orbit <= TURN
    }

    pub open spec fn step_spec(&self) -> int {
        (TURN as int) / (self.samples_per_orbit as int)
    }

    /// The default configuration: 1000 samples per revolution, at most 1000 kept.
    pub fn new_default() -> (r: TrailConfig)
        ensures
            r.wf(),
            r.samples_per_orbit == DEFAULT_SAMPLES_PER_ORBIT,
            r.cap == DEFAULT_TRAIL_CAP,
    {
        TrailConfig { samples_per_orbit: DEFAULT_SAMPLES_PER_ORBIT, cap: DEFAULT_TRAIL_CAP }
    }

    /// The angular step between samples, `TURN / N`.
    pub fn step(&self) -> (r: u64)
        requires
            self.wf(),
        ensures
            r == self.step_spec(),
            1 <= r <= TURN,
            r * self.samples_per_orbit <= TURN,
    {
        let r = TURN / self.samples_per_orbit;
        assert(r * self.samples_per_orbit <= TURN) by {
            vstd::arithmetic::div_mod::lemma_fundamental_div_mod(TURN as int, self.samples_per_orbit as int);
            vstd::arithmetic::div_mod::lemma_mod_bound(TURN as int, self.samples_per_orbit as int);
        }
        assert(r >= 1) by {
            vstd::arithmetic::div_mod::lemma_div_is_ordered(self.samples_per_orbit as int, TURN as int, self.samples_per_orbit as int);
            vstd::arithmetic::div_mod::lemma_div_multiples_vanish(1, self.samples_per_orbit as int);
        }
        r
    }
}

/// The forward angular distance from `last` to `cur`, in `[0, TURN)`.
pub open spec fn forward_delta(cur: int, last: int) -> int {
    wrap_turn(cur - last)
}

/// Whole steps between the last sampled angle and the current mean anomaly.
pub open spec fn steps_due(b: Body, cfg: TrailConfig) -> int {
    forward_delta(b.orbit_angle as int, b.last_trail_angle as int) / cfg.step_spec()
}

/// Whether a tick appends samples to the body's trail.
pub open spec fn trail_due(b: Body, cfg: TrailConfig) -> bool {
    b.tracks_trail_spec() && steps_due(b, cfg) >= 1
}

/// Number of samples a tick appends: the due steps, at most one revolution's worth.
pub open spec fn samples_due(b: Body, cfg: TrailConfig) -> int {
    if !trail_due(b, cfg) {
        0
    } else if steps_due(b, cfg) > cfg.samples_per_orbit {
        cfg.samples_per_orbit as int
    } else {
        steps_due(b, cfg)
    }
}

/// The trail after appending `samples` and dropping the oldest entries beyond `cap`.
pub open spec fn appended_capped(trail: Seq<Vec3>, samples: Seq<Vec3>, cap: int) -> Seq<Vec3> {
    let all = trail + samples;
    if all.len() > cap {
        all.subrange(all.len() - cap, all.len() as int)
    } else {
        all
    }
}

/// The trail never holds more than the cap: whatever was in it and however many
/// samples arrive, appending and trimming leaves at most `cap` samples.
pub proof fn lemma_trail_within_cap(trail: Seq<Vec3>, samples: Seq<Vec3>, cap: nat)
    ensures
        appended_capped(trail, samples, cap as int).len() <= cap,
{
}

impl Body {
    /// The samples due since the trail was last extended: for `k` in `1..=samples_due`,
    /// the angle `last_trail_angle + k·step`; the trail angle then moves on by every
    /// due step, including those beyond the one-revolution cap.
    pub fn trail_plan(&self, cfg: &TrailConfig) -> (r: TrailPlan)
        requires
            self.wf(),
            cfg.wf(),
        ensures
            r.angles.len() == samples_due(*self, *cfg),
            forall|k: int| 0 <= k < r.angles.len() ==> #[trigger] r.angles@[k] as int
                == wrap_turn(self.last_trail_angle + (k + 1) * cfg.step_spec()),
            r.next_last == (if trail_due(*self, *cfg) {
                wrap_turn(self.last_trail_angle + steps_due(*self, *cfg) * cfg.step_spec())
            } else {
                self.last_trail_angle as int
            }),
            r.next_last < TURN,
    {
        let step = cfg.step();
        let mut angles: Vec<u64> = Vec::new();
        if !self.tracks_trail() {
            return TrailPlan { angles, next_last: self.last_trail_angle };
        }
        let delta: u64 = if self.orbit_angle >= self.last_trail_angle {
            self.orbit_angle - self.last_trail_angle
        } else {
            self.orbit_angle + (TURN - self.last_trail_angle)
        };
        assert(delta == forward_delta(self.orbit_angle as int, self.last_trail_angle as int)) by {
            if self.orbit_angle >= self.last_trail_angle {
                vstd::arithmetic::div_mod::lemma_small_mod(delta as nat, TURN as nat);
            } else {
                vstd::arithmetic::div_mod::lemma_mod_add_multiples_vanish(
                    self.orbit_angle - self.last_trail_angle, TURN as int);
                vstd::arithmetic::div_mod::lemma_small_mod(delta as nat, TURN as nat);
            }
        }
        let steps: u64 = delta / step;
        if steps == 0 {
            return TrailPlan { angles, next_last: self.last_trail_angle };
        }
        let take: u64 = if steps > cfg.samples_per_orbit {
            cfg.samples_per_orbit
        } else {
            steps
        };
        assert(take * step <= TURN) by (nonlinear_arith)
            requires
                take <= cfg.samples_per_orbit,
                step * cfg.samples_per_orbit <= TURN,
                step >= 1,
        ;
        let mut k: u64 = 0;
        while k < take
            invariant
                k <= take,
                take * step <= TURN,
                step >= 1,
                self.last_trail_angle < TURN,
                step == cfg.step_spec(),
                angles.len() == k,
                forall|j: int| 0 <= j < k ==> #[trigger] angles@[j] as int
                    == wrap_turn(self.last_trail_angle + (j + 1) * step),
            decreases take - k,
        {
            assert((k + 1) * step <= take * step) by (nonlinear_arith)
                requires
                    k + 1 <= take,
                    step >= 1,
            ;
            let a = wrap_angle(self.last_trail_angle + (k + 1) * step);
            angles.push(a);
            k += 1;
        }
        assert(steps * step <= delta) by (nonlinear_arith)
            requires
                steps == delta / step,
                step >= 1,
        ;
        let next_last = wrap_angle(self.last_trail_angle + steps * step);
        TrailPlan { angles, next_last }
    }

    /// The samples of a freshly built trail: one full revolution ending just behind
    /// the current mean anomaly, `orbit_angle + j·step` for `j` in `0..N` (a revolution
    /// ago, then forward). Empty for a body without a trail or without motion.
    pub fn initial_trail_plan(&self, cfg: &TrailConfig) -> (r: TrailPlan)
        requires
            self.wf(),
            cfg.wf(),
        ensures
            r.angles.len() == (if self.tracks_trail_spec() && self.orbit_speed != 0 {
                cfg.samples_per_orbit as int
            } else {
                0
            }),
            forall|j: int| 0 <= j < r.angles.len() ==> #[trigger] r.angles@[j] as int
                == wrap_turn(self.orbit_angle + j * cfg.step_spec()),
            r.next_last == self.orbit_angle,
    {
        let step = cfg.step();
        let mut angles: Vec<u64> = Vec::new();
        if !self.tracks_trail() || self.orbit_speed == 0 {
            return TrailPlan { angles, next_last: self.orbit_angle };
        }
        let n = cfg.samples_per_orbit;
        let mut j: u64 = 0;
        while j < n
            invariant
                j <= n,
                n == cfg.samples_per_orbit,
                step * n <= TURN,
                self.orbit_angle < TURN,
                step == cfg.step_spec(),
                angles.len() == j,
                forall|i: int| 0 <= i < j ==> #[trigger] angles@[i] as int
                    == wrap_turn(self.orbit_angle + i * step),
            decreases n - j,
        {
            assert(j * step <= n * step) by (nonlinear_arith)
                requires
                    j <= n,
            ;
            assert(j * step == step * j) by (nonlinear_arith);
            assert(n * step == step * n) by (nonlinear_arith);
            let a = wrap_angle(self.orbit_angle + j * step);
            angles.push(a);
            j += 1;
        }
        TrailPlan { angles, next_last: self.orbit_angle }
    }

    /// Appends `samples` to the trail, drops the oldest entries beyond `cap`, and
    /// records `next_last` as the trail angle.
    pub fn extend_trail(&mut self, samples: &Vec<Vec3>, next_last: u64, cap: usize)
        requires
            old(self).wf(),
            next_last < TURN,
            old(self).trail.len() + samples.len() <= usize::MAX,
            forall|k: int| 0 <= k < samples.len() ==> within(#[trigger] samples@[k], LOCAL_LIMIT as int),
        ensures
            final(self).wf(),
            final(self).trail@ == appended_capped(old(self).trail@, samples@, cap as int),
            final(self).trail.len() <= cap,
            final(self).last_trail_angle == next_last,
            final(self).same_but_trail(old(self)),
    {
        let ghost all = self.trail@ + samples@;
        let total: usize = self.trail.len() + samples.len();
        let start: usize = if total > cap { total - cap } else { 0 };
        let mut out: Vec<Vec3> = Vec::new();
        let mut i: usize = start;
        while i < total
            invariant
                start <= i <= total,
                total == all.len(),
                all == self.trail@ + samples@,
                out@ == all.subrange(start as int, i as int),
            decreases total - i,
        {
            let v = if i < self.trail.len() {
                self.trail[i]
            } else {
                samples[i - self.trail.len()]
            };
            out.push(v);
            assert(out@ =~= all.subrange(start as int, i + 1));
            i += 1;
        }
        assert(out@ =~= appended_capped(self.trail@, samples@, cap as int));
        assert forall|k: int| 0 <= k < out.len() implies within(#[trigger] out@[k], LOCAL_LIMIT as int) by {
            let j = start + k;
            assert(out@[k] == all[j]);
            if j < self.trail.len() {
                assert(all[j] == self.trail@[j]);
            } else {
                assert(all[j] == samples@[j - self.trail.len()]);
            }
        }
        self.trail = out;
        self.last_trail_angle = next_last;
    }

    /// Fields of the two bodies other than the trail and its angle agree.
    pub open spec fn same_but_trail(&self, o: &Body) -> bool {
        &&& self.name == o.name
        &&& self.class == o.class
        &&& self.radius == o.radius
        &&& self.orbit_radius == o.orbit_radius
        &&& self.orbit_speed == o.orbit_speed
        &&& self.orbit_angle == o.orbit_angle
        &&& self.color == o.color
        &&& self.parent == o.parent
        &&& self.rotation_period == o.rotation_period
        &&& self.axial_tilt == o.axial_tilt
        &&& self.current_rotation == o.current_rotation
        &&& self.cloud_rotation == o.cloud_rotation
        &&& self.orbit_inclination == o.orbit_inclination
        &&& self.longitude_of_ascending_node == o.longitude_of_ascending_node
        &&& self.argument_of_periapsis == o.argument_of_periapsis
        &&& self.eccentricity == o.eccentricity
        &&& self.ring_radius == o.ring_radius
        &&& self.ring_inner_radius == o.ring_inner_radius
        &&& self.temperature == o.temperature
        &&& self.is_frozen == o.is_frozen
    }
}

} // verus!
