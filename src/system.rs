//! The simulation context: the body collection, its clock, the focus and the
//! camera, and the per-frame update and render passes.
use vstd::prelude::*;
use crate::units::{TURN, LOCAL_LIMIT, MAX_BODIES, WORLD_LIMIT, Vec3, within, triple, diff_of, norm_sq,
    wrap_turn, add_angle, isqrt, is_isqrt};
use crate::body::{Body, BodyClass};
use crate::clock::{SimClock, DEFAULT_MAX_STEP_US, SCALE_ONE, MAX_SCALED_STEP_US, scaled_step, clamp_scale, saturating_sum};
use crate::frames::{parents_ordered, first_misplaced, world_of, check_parent_order, resolve_world};
use crate::trail::{TrailConfig, TrailPlan, samples_due, trail_due, steps_due, appended_capped};
use crate::view::{BodyView, Instance, CAMERA_LIMIT, MAJOR_LOD_DIVISOR, MINOR_LOD_DIVISOR, target_of,
    focus_target, recentre, camera_distance_sq, render_radius_of, detailed_of, level_of_detail};

verus! {

/// Smallest camera distance a zoom can reach, in micro-units (0.0001 units).
pub const MIN_ZOOM: u64 = 100;

/// Largest camera distance a zoom can reach, in micro-units (10^8 units).
pub const MAX_ZOOM: u64 = 100_000_000_000_000;

/// Camera distance change of one arrow-key press, in micro-units (one unit).
pub const KEY_ZOOM_STEP: u64 = 1_000_000;

/// Yaw change of one arrow-key press, in angle units (0.1 rad).
pub const KEY_TURN_STEP: i64 = 57_295_779_513_082_320;

/// Rotation per pixel of mouse drag, in angle units (0.01 rad).
pub const DRAG_STEP: i64 = 5_729_577_951_308_232;

/// Largest camera pitch either way, in angle units (1.5 rad).
pub const PITCH_LIMIT: i64 = 859_436_692_696_234_812;

/// Render radius of a black hole, in micro-units (0.3 units), large enough for its
/// lensing effect to show.
pub const BLACK_HOLE_RENDER_RADIUS: u64 = 300_000;

/// Default camera distance, in micro-units (60 units).
pub const DEFAULT_CAMERA_DISTANCE: u64 = 60_000_000;

/// Default camera pitch, in angle units (0.5 rad).
pub const DEFAULT_PITCH: i64 = 286_478_897_565_411_604;

/// A pre-decoded camera key.
#[derive(Clone, Copy, Debug, PartialEq, Eq, Structural)]
pub enum CameraKey {
    /// Move the camera one unit nearer.
    ZoomIn,
    /// Move the camera one unit farther.
    ZoomOut,
    /// Turn the camera left.
    TurnLeft,
    /// Turn the camera right.
    TurnRight,
}

/// Why a body collection cannot start a simulation.
#[derive(Clone, Copy, Debug, PartialEq, Eq, Structural)]
pub enum BuildError {
    /// More bodies than `MAX_BODIES`.
    TooManyBodies,
    /// The body at this index names a parent that is not earlier in the collection.
    ParentNotBefore(usize),
    /// The body at this index has elements out of range (e.g. eccentricity of 1 or more).
    InvalidElements(usize),
}

/// A frame's draw data: the focus position, the light position relative to it, one
/// view per body, and the instanced batch of bulk-population bodies.
#[derive(Clone, Debug)]
pub struct RenderPlan {
    pub target: Vec3,
    pub light: Vec3,
    pub views: Vec<BodyView>,
    pub instances: Vec<Instance>,
}

/// The orbital simulation.
#[derive(Clone, Debug)]
pub struct SolarSystem {
    pub bodies: Vec<Body>,
    pub clock: SimClock,
    /// Camera distance from the focus, in micro-units.
    pub camera_distance: u64,
    /// Camera elevation, in angle units within `[-PITCH_LIMIT, PITCH_LIMIT]`.
    pub camera_pitch: i64,
    /// Camera azimuth, in angle units within `[0, TURN)`.
    pub camera_yaw: u64,
    pub is_dragging: bool,
    pub last_mouse_x: i32,
    pub last_mouse_y: i32,
    pub focused_body_index: Option<usize>,
    pub is_black_hole: bool,
    pub use_celsius: bool,
    pub trail_config: TrailConfig,
}

/// The instanced batch for the first `n` bodies: one record per bulk-population
/// body, in collection order.
pub open spec fn instances_of(bodies: Seq<Body>, views: Seq<BodyView>, n: int) -> Seq<Instance>
    decreases n,
{
    if n <= 0 {
        Seq::empty()
    } else {
        let rest = instances_of(bodies, views, n - 1);
        if views[n - 1].instanced {
            rest.push(Instance {
                position: views[n - 1].position,
                render_radius: views[n - 1].render_radius,
                color: bodies[n - 1].color,
            })
        } else {
            rest
        }
    }
}

/// Every constructed simulation keeps its parents before their children: for each
/// body with a parent, the parent's index is below the body's own.
pub proof fn lemma_parent_before_child(s: SolarSystem, i: int)
    requires
        s.wf(),
        0 <= i < s.bodies.len(),
        s.bodies@[i].parent.is_some(),
    ensures
        s.bodies@[i].parent.unwrap() < i,
{
}

/// Body `i` and all its ancestors have zero orbital speed.
pub open spec fn still_chain(bodies: Seq<Body>, i: int) -> bool
    decreases i,
{
    &&& 0 <= i < bodies.len()
    &&& bodies[i].orbit_speed == 0
    &&& match bodies[i].parent {
        Some(p) => p < i && still_chain(bodies, p as int),
        None => true,
    }
}

/// What determines a body's local offset: its semi-major axis, eccentricity,
/// orientation angles and mean anomaly.
pub open spec fn orbital_state(b: Body) -> (u64, i64, u64, u64, u64, u64) {
    (b.orbit_radius, b.eccentricity, b.orbit_inclination, b.longitude_of_ascending_node,
        b.argument_of_periapsis, b.orbit_angle)
}

/// Zero motion keeps a body in place: if body `i` and all its ancestors have zero
/// orbital speed, then after a tick (each body's other fields kept, its mean anomaly
/// advanced as `update` states) its absolute position is unchanged, for local offsets
/// computed by any function `kep` of the orbital state.
pub proof fn lemma_still_chain_keeps_world(before: Seq<Body>, after: Seq<Body>, kep: spec_fn(
    (u64, i64, u64, u64, u64, u64),
) -> Vec3, l1: Seq<Vec3>, l2: Seq<Vec3>, dt: int, i: int)
    requires
        still_chain(before, i),
        after.len() == before.len(),
        l1.len() == before.len(),
        l2.len() == before.len(),
        forall|j: int| 0 <= j < before.len() ==> (#[trigger] before[j]).wf(),
        forall|j: int| 0 <= j < before.len() ==> (#[trigger] after[j]).same_but_angles(&before[j])
            && after[j].orbit_angle == before[j].next_orbit_angle(dt),
        forall|j: int| 0 <= j < before.len() ==> #[trigger] l1[j] == kep(orbital_state(before[j])),
        forall|j: int| 0 <= j < before.len() ==> #[trigger] l2[j] == kep(orbital_state(after[j])),
    ensures
        world_of(after, l2, i) == world_of(before, l1, i),
    decreases i,
{
    crate::clock::lemma_still_body_keeps_angle(before[i], dt);
    assert(after[i].same_but_angles(&before[i]));
    assert(orbital_state(after[i]) == orbital_state(before[i]));
    assert(l2[i] == l1[i]);
    match before[i].parent {
        Some(p) => {
            lemma_still_chain_keeps_world(before, after, kep, l1, l2, dt, p as int);
        },
        None => {},
    }
}

/// A camera distance clamped into `[MIN_ZOOM, MAX_ZOOM]`.
pub open spec fn clamp_zoom(d: int) -> int {
    if d < MIN_ZOOM {
        MIN_ZOOM as int
    } else if d > MAX_ZOOM {
        MAX_ZOOM as int
    } else {
        d
    }
}

/// A camera pitch clamped into `[-PITCH_LIMIT, PITCH_LIMIT]`.
pub open spec fn clamp_pitch(p: int) -> int {
    if p > PITCH_LIMIT {
        PITCH_LIMIT as int
    } else if p < -PITCH_LIMIT {
        -PITCH_LIMIT
    } else {
        p
    }
}

fn zoom_to(d: i128) -> (r: u64)
    requires
        d < 0x1_0000_0000_0000_0000_0000_0000,
    ensures
        r == clamp_zoom(d as int),
        r <= MAX_ZOOM,
{
    if d < MIN_ZOOM as i128 {
        MIN_ZOOM
    } else if d > MAX_ZOOM as i128 {
        MAX_ZOOM
    } else {
        d as u64
    }
}

/// Appending a view leaves the instanced batch of an existing prefix unchanged.
proof fn lemma_instances_push(bodies: Seq<Body>, views: Seq<BodyView>, v: BodyView, n: int)
    requires
        0 <= n <= views.len(),
    ensures
        instances_of(bodies, views.push(v), n) == instances_of(bodies, views, n),
    decreases n,
{
    if n > 0 {
        lemma_instances_push(bodies, views, v, n - 1);
        assert(views.push(v)[n - 1] == views[n - 1]);
    }
}

/// Render radius, close-up regime, batching and lighting of body `b` at camera
/// distance `distance`. A black hole is drawn at `BLACK_HOLE_RENDER_RADIUS` so that its
/// lensing effect shows; the central body is never lit; other bodies are lit in the
/// close-up regime.
pub open spec fn view_of(b: Body, distance: int, black_hole_mode: bool) -> (int, bool, bool, bool) {
    let divisor = if b.class == BodyClass::Minor {
        MINOR_LOD_DIVISOR as int
    } else {
        MAJOR_LOD_DIVISOR as int
    };
    let detailed = detailed_of(b.radius as int, distance, divisor);
    let radius = if black_hole_mode && b.class == BodyClass::Star {
        BLACK_HOLE_RENDER_RADIUS as int
    } else {
        render_radius_of(b.radius as int, distance, divisor)
    };
    (radius, detailed, b.class == BodyClass::Minor, detailed && b.class != BodyClass::Star)
}

impl SolarSystem {
    pub open spec fn wf(&self) -> bool {
        &&& self.bodies.len() <= MAX_BODIES
        &&& parents_ordered(self.bodies@)
        &&& forall|i: int| 0 <= i < self.bodies.len() ==> (#[trigger] self.bodies@[i]).wf()
        &&& self.clock.wf()
        &&& self.trail_config.wf()
        &&& self.camera_distance <= MAX_ZOOM
        &&& -PITCH_LIMIT <= self.camera_pitch <= PITCH_LIMIT
        &&& self.camera_yaw < TURN
    }

    /// Starts a simulation on a body collection at wall-clock reading `wall_us` and
    /// simulated time `start_us`: `Ok` exactly when the collection is small enough,
    /// every parent comes before its child and every body's elements are in range.
    pub fn from_bodies(bodies: Vec<Body>, start_us: i64, wall_us: i64, is_black_hole: bool) -> (r: Result<
        SolarSystem,
        BuildError,
    >)
        ensures
            match r {
                Ok(s) => {
                    &&& s.wf()
                    &&& s.bodies@ == bodies@
                    &&& s.clock == (SimClock {
                        current_time_us: start_us,
                        last_wall_us: wall_us,
                        time_scale: SCALE_ONE,
                        max_step_us: DEFAULT_MAX_STEP_US,
                    })
                    &&& s.focused_body_index == None::<usize>
                    &&& s.is_black_hole == is_black_hole
                },
                Err(BuildError::TooManyBodies) => bodies.len() > MAX_BODIES,
                Err(BuildError::ParentNotBefore(i)) => bodies.len() <= MAX_BODIES && first_misplaced(
                    bodies@,
                    i as int,
                ),
                Err(BuildError::InvalidElements(i)) => {
                    &&& bodies.len() <= MAX_BODIES
                    &&& parents_ordered(bodies@)
                    &&& 0 <= i < bodies.len()
                    &&& !bodies@[i as int].wf()
                    &&& forall|j: int| 0 <= j < i ==> (#[trigger] bodies@[j]).wf()
                },
            },
            r is Ok <==> (bodies.len() <= MAX_BODIES && parents_ordered(bodies@) && forall|i: int|
                0 <= i < bodies.len() ==> (#[trigger] bodies@[i]).wf()),
    {
        if bodies.len() > MAX_BODIES {
            return Err(BuildError::TooManyBodies);
        }
        match check_parent_order(&bodies) {
            Err(i) => {
                return Err(BuildError::ParentNotBefore(i));
            },
            Ok(()) => {},
        }
        let mut i: usize = 0;
        while i < bodies.len()
            invariant
                i <= bodies.len(),
                bodies.len() <= MAX_BODIES,
                parents_ordered(bodies@),
                forall|j: int| 0 <= j < i ==> (#[trigger] bodies@[j]).wf(),
            decreases bodies.len() - i,
        {
            if !bodies[i].elements_valid() {
                return Err(BuildError::InvalidElements(i));
            }
            i += 1;
        }
        Ok(SolarSystem {
            bodies,
            clock: SimClock::new(start_us, wall_us),
            camera_distance: DEFAULT_CAMERA_DISTANCE,
            camera_pitch: DEFAULT_PITCH,
            camera_yaw: 0,
            is_dragging: false,
            last_mouse_x: 0,
            last_mouse_y: 0,
            focused_body_index: None,
            is_black_hole,
            use_celsius: true,
            trail_config: TrailConfig::new_default(),
        })
    }

    /// Sets the focus to body `index` and suggests a camera distance of five body
    /// radii; an out-of-range index clears the focus instead.
    pub fn select_body(&mut self, index: usize)
        requires
            old(self).wf(),
        ensures
            final(self).wf(),
            index < old(self).bodies.len() ==> final(self).focused_body_index == Some(index)
                && final(self).camera_distance == 5 * old(self).bodies@[index as int].radius,
            index >= old(self).bodies.len() ==> final(self).focused_body_index == None::<usize>
                && final(self).camera_distance == old(self).camera_distance,
            final(self).bodies@ == old(self).bodies@,
            final(self).clock == old(self).clock,
            *final(self) == (SolarSystem {
                focused_body_index: final(self).focused_body_index,
                camera_distance: final(self).camera_distance,
                ..*old(self)
            }),
    {
        if index < self.bodies.len() {
            self.focused_body_index = Some(index);
            self.camera_distance = self.bodies[index].radius * 5;
        } else {
            self.focused_body_index = None;
        }
    }

    /// Switches the temperature display between Celsius and Kelvin.
    pub fn toggle_temperature_unit(&mut self)
        requires
            old(self).wf(),
        ensures
            final(self).wf(),
            final(self).use_celsius == !old(self).use_celsius,
            final(self).bodies@ == old(self).bodies@,
            final(self).focused_body_index == old(self).focused_body_index,
            *final(self) == (SolarSystem { use_celsius: !old(self).use_celsius, ..*old(self) }),
    {
        self.use_celsius = !self.use_celsius;
    }

    /// A temperature in hundredths of a degree of the selected unit.
    pub fn display_temperature(&self, kelvin: u32) -> (r: i64)
        ensures
            r == (if self.use_celsius { kelvin * 100 - 27315 } else { kelvin * 100 }),
    {
        if self.use_celsius {
            kelvin as i64 * 100 - 27315
        } else {
            kelvin as i64 * 100
        }
    }

    /// Sets the clock's rate multiplier (clamped to `MAX_TIME_SCALE` either way).
    pub fn set_time_scale(&mut self, scale: i64)
        requires
            old(self).wf(),
        ensures
            final(self).wf(),
            final(self).clock.time_scale == clamp_scale(scale as int),
            *final(self) == (SolarSystem {
                clock: SimClock { time_scale: clamp_scale(scale as int) as i64, ..old(self).clock },
                ..*old(self)
            }),
    {
        self.clock.set_time_scale(scale);
    }

    /// One simulation tick at wall-clock reading `now_us`: the clock advances by the
    /// clamped, scaled step, and every body's mean anomaly, spin and cloud layer
    /// advance by it.
    pub fn update(&mut self, now_us: i64)
        requires
            old(self).wf(),
        ensures
            final(self).wf(),
            final(self).bodies.len() == old(self).bodies.len(),
            final(self).clock.last_wall_us == now_us,
            final(self).clock.current_time_us == saturating_sum(old(self).clock.current_time_us as int,
                scaled_step(now_us - old(self).clock.last_wall_us, old(self).clock.max_step_us as int,
                old(self).clock.time_scale as int)),
            final(self).clock.time_scale == old(self).clock.time_scale,
            final(self).clock.max_step_us == old(self).clock.max_step_us,
            forall|i: int| 0 <= i < final(self).bodies.len() ==> {
                let dt = scaled_step(now_us - old(self).clock.last_wall_us,
                    old(self).clock.max_step_us as int, old(self).clock.time_scale as int);
                let (o, n) = (old(self).bodies@[i], #[trigger] final(self).bodies@[i]);
                &&& n.same_but_angles(&o)
                &&& n.orbit_angle == o.next_orbit_angle(dt)
                &&& n.current_rotation == o.next_rotation(dt)
                &&& n.cloud_rotation == o.next_cloud_rotation(dt)
            },
            final(self).focused_body_index == old(self).focused_body_index,
            final(self).camera_distance == old(self).camera_distance,
            final(self).camera_pitch == old(self).camera_pitch,
            final(self).camera_yaw == old(self).camera_yaw,
            final(self).trail_config == old(self).trail_config,
    {
        let dt = self.clock.tick(now_us);
        let ghost s1 = *self;
        let n = self.bodies.len();
        let mut i: usize = 0;
        while i < n
            invariant
                i <= n,
                n == self.bodies.len(),
                self.bodies.len() == old(self).bodies.len(),
                self.clock == s1.clock,
                self.clock.wf(),
                self.clock.last_wall_us == now_us,
                self.trail_config == s1.trail_config,
                self.trail_config.wf(),
                self.camera_distance == s1.camera_distance,
                self.camera_distance <= MAX_ZOOM,
                self.camera_pitch == s1.camera_pitch,
                -PITCH_LIMIT <= self.camera_pitch <= PITCH_LIMIT,
                self.camera_yaw == s1.camera_yaw,
                self.camera_yaw < TURN,
                self.focused_body_index == old(self).focused_body_index,
                dt == scaled_step(now_us - old(self).clock.last_wall_us,
                    old(self).clock.max_step_us as int, old(self).clock.time_scale as int),
                self.bodies.len() <= MAX_BODIES,
                -MAX_SCALED_STEP_US <= dt <= MAX_SCALED_STEP_US,
                forall|k: int| 0 <= k < n ==> (#[trigger] self.bodies@[k]).wf(),
                forall|k: int| i <= k < n ==> #[trigger] self.bodies@[k] == old(self).bodies@[k],
                forall|k: int| 0 <= k < i ==> {
                    let (o, b) = (old(self).bodies@[k], #[trigger] self.bodies@[k]);
                    &&& b.same_but_angles(&o)
                    &&& b.orbit_angle == o.next_orbit_angle(dt as int)
                    &&& b.current_rotation == o.next_rotation(dt as int)
                    &&& b.cloud_rotation == o.next_cloud_rotation(dt as int)
                },
            decreases n - i,
        {
            self.bodies[i].advance(dt);
            i += 1;
        }
        assert(parents_ordered(self.bodies@)) by {
            assert forall|k: int| 0 <= k < self.bodies.len() && (#[trigger] self.bodies@[k].parent).is_some()
                implies self.bodies@[k].parent.unwrap() < k by {
                assert(self.bodies@[k].parent == old(self).bodies@[k].parent);
            }
        }
    }

    /// Absolute positions of all bodies from their local offsets, parents first.
    pub fn world_positions(&self, locals: &Vec<Vec3>) -> (r: Vec<Vec3>)
        requires
            self.wf(),
            locals.len() == self.bodies.len(),
            forall|i: int| 0 <= i < locals.len() ==> within(#[trigger] locals@[i], LOCAL_LIMIT as int),
        ensures
            r.len() == locals.len(),
            forall|i: int| 0 <= i < r.len() ==> triple(#[trigger] r@[i]) == world_of(self.bodies@, locals@, i),
            forall|i: int| 0 <= i < r.len() ==> within(#[trigger] r@[i], WORLD_LIMIT as int),
    {
        resolve_world(&self.bodies, locals)
    }

    /// The trail samples due for body `index` on this tick.
    pub fn trail_plan(&self, index: usize) -> (r: TrailPlan)
        requires
            self.wf(),
            index < self.bodies.len(),
        ensures
            r.angles.len() == samples_due(self.bodies@[index as int], self.trail_config),
            forall|k: int| 0 <= k < r.angles.len() ==> #[trigger] r.angles@[k] as int
                == wrap_turn(self.bodies@[index as int].last_trail_angle + (k + 1) * self.trail_config.step_spec()),
            r.next_last == (if trail_due(self.bodies@[index as int], self.trail_config) {
                wrap_turn(self.bodies@[index as int].last_trail_angle + steps_due(self.bodies@[index as int],
                    self.trail_config) * self.trail_config.step_spec())
            } else {
                self.bodies@[index as int].last_trail_angle as int
            }),
            r.next_last < TURN,
    {
        self.bodies[index].trail_plan(&self.trail_config)
    }

    /// The samples that prefill body `index`'s trail with its last revolution.
    pub fn initial_trail_plan(&self, index: usize) -> (r: TrailPlan)
        requires
            self.wf(),
            index < self.bodies.len(),
        ensures
            r.angles.len() == (if self.bodies@[index as int].tracks_trail_spec()
                && self.bodies@[index as int].orbit_speed != 0 {
                self.trail_config.samples_per_orbit as int
            } else {
                0
            }),
            forall|j: int| 0 <= j < r.angles.len() ==> #[trigger] r.angles@[j] as int
                == wrap_turn(self.bodies@[index as int].orbit_angle + j * self.trail_config.step_spec()),
            r.next_last == self.bodies@[index as int].orbit_angle,
    {
        self.bodies[index].initial_trail_plan(&self.trail_config)
    }

    /// Appends the sampled positions to body `index`'s trail, trims it to the cap, and
    /// records `next_last` as its trail angle.
    pub fn extend_trail(&mut self, index: usize, samples: &Vec<Vec3>, next_last: u64)
        requires
            old(self).wf(),
            index < old(self).bodies.len(),
            next_last < TURN,
            old(self).bodies@[index as int].trail.len() + samples.len() <= usize::MAX,
            forall|k: int| 0 <= k < samples.len() ==> within(#[trigger] samples@[k], LOCAL_LIMIT as int),
        ensures
            final(self).wf(),
            final(self).bodies.len() == old(self).bodies.len(),
            final(self).bodies@[index as int].trail@ == appended_capped(
                old(self).bodies@[index as int].trail@, samples@, old(self).trail_config.cap as int),
            final(self).bodies@[index as int].last_trail_angle == next_last,
            final(self).bodies@[index as int].same_but_trail(&old(self).bodies@[index as int]),
            forall|j: int| 0 <= j < final(self).bodies.len() && j != index ==> #[trigger] final(self).bodies@[j]
                == old(self).bodies@[j],
            final(self).trail_config == old(self).trail_config,
            final(self).clock == old(self).clock,
            final(self).focused_body_index == old(self).focused_body_index,
    {
        let cap = self.trail_config.cap;
        self.bodies[index].extend_trail(samples, next_last, cap);
        assert(parents_ordered(self.bodies@)) by {
            assert forall|k: int| 0 <= k < self.bodies.len() && (#[trigger] self.bodies@[k].parent).is_some()
                implies self.bodies@[k].parent.unwrap() < k by {
                assert(self.bodies@[k].parent == old(self).bodies@[k].parent);
            }
        }
    }

    /// Trail of body `index` for drawing: each sample moved to the parent's absolute
    /// position and then made relative to the focus position `target`.
    pub fn trail_points(&self, index: usize, worlds: &Vec<Vec3>, target: &Vec3) -> (r: Vec<Vec3>)
        requires
            self.wf(),
            index < self.bodies.len(),
            worlds.len() == self.bodies.len(),
            forall|i: int| 0 <= i < worlds.len() ==> within(#[trigger] worlds@[i], WORLD_LIMIT as int),
            within(*target, WORLD_LIMIT as int),
        ensures
            r.len() == self.bodies@[index as int].trail.len(),
            forall|k: int| 0 <= k < r.len() ==> {
                let b = self.bodies@[index as int];
                let p = match b.parent {
                    Some(pi) => worlds@[pi as int],
                    None => Vec3 { x: 0, y: 0, z: 0 },
                };
                triple(#[trigger] r@[k]) == (b.trail@[k].x + p.x - target.x, b.trail@[k].y + p.y - target.y,
                    b.trail@[k].z + p.z - target.z)
            },
    {
        let b = &self.bodies[index];
        let p = match b.parent {
            Some(pi) => worlds[pi],
            None => Vec3::zero(),
        };
        let mut out: Vec<Vec3> = Vec::new();
        let mut k: usize = 0;
        while k < b.trail.len()
            invariant
                k <= b.trail.len(),
                b.wf(),
                within(p, WORLD_LIMIT as int),
                within(*target, WORLD_LIMIT as int),
                out.len() == k,
                forall|j: int| 0 <= j < k ==> triple(#[trigger] out@[j]) == (b.trail@[j].x + p.x - target.x,
                    b.trail@[j].y + p.y - target.y, b.trail@[j].z + p.z - target.z),
            decreases b.trail.len() - k,
        {
            let s = b.trail[k];
            assert(within(s, LOCAL_LIMIT as int));
            out.push(Vec3 { x: s.x + p.x - target.x, y: s.y + p.y - target.y, z: s.z + p.z - target.z });
            k += 1;
        }
        out
    }

    /// The render pass's decisions for a frame with absolute positions `worlds` and the
    /// camera at `camera` relative to the focus: the focus position, the light (the
    /// origin) relative to it, each body's focus-relative position, camera distance,
    /// render radius and regime, and the instanced batch of bulk-population bodies.
    pub fn render(&self, worlds: &Vec<Vec3>, camera: &Vec3) -> (r: RenderPlan)
        requires
            self.wf(),
            worlds.len() == self.bodies.len(),
            forall|i: int| 0 <= i < worlds.len() ==> within(#[trigger] worlds@[i], WORLD_LIMIT as int),
            within(*camera, CAMERA_LIMIT as int),
        ensures
            r.target == target_of(worlds@, self.focused_body_index),
            triple(r.light) == diff_of(Vec3 { x: 0, y: 0, z: 0 }, r.target),
            r.views.len() == self.bodies.len(),
            forall|i: int| 0 <= i < r.views.len() ==> {
                let v = #[trigger] r.views@[i];
                &&& triple(v.position) == diff_of(worlds@[i], r.target)
                &&& is_isqrt(norm_sq(diff_of(*camera, v.position)), v.distance as int)
                &&& (v.render_radius as int, v.detailed, v.instanced, v.lit) == view_of(self.bodies@[i],
                    v.distance as int, self.is_black_hole)
            },
            r.instances@ == instances_of(self.bodies@, r.views@, self.bodies.len() as int),
    {
        let target = focus_target(worlds, self.focused_body_index);
        let rel = recentre(worlds, &target);
        let light = Vec3::zero().sub(&target);
        let mut views: Vec<BodyView> = Vec::new();
        let mut instances: Vec<Instance> = Vec::new();
        let mut i: usize = 0;
        while i < self.bodies.len()
            invariant
                i <= self.bodies.len(),
                rel.len() == self.bodies.len(),
                forall|k: int| 0 <= k < rel.len() ==> triple(#[trigger] rel@[k]) == diff_of(worlds@[k], target),
                forall|k: int| 0 <= k < rel.len() ==> within(#[trigger] rel@[k], 2 * WORLD_LIMIT),
                within(*camera, CAMERA_LIMIT as int),
                views.len() == i,
                forall|k: int| 0 <= k < i ==> {
                    let v = #[trigger] views@[k];
                    &&& v.position == rel@[k]
                    &&& is_isqrt(norm_sq(diff_of(*camera, v.position)), v.distance as int)
                    &&& (v.render_radius as int, v.detailed, v.instanced, v.lit) == view_of(self.bodies@[k],
                        v.distance as int, self.is_black_hole)
                },
                instances@ == instances_of(self.bodies@, views@, i as int),
            decreases self.bodies.len() - i,
        {
            let p = rel[i];
            let d = isqrt(camera_distance_sq(&p, camera));
            let b = &self.bodies[i];
            let minor = b.is_minor();
            let divisor = if minor { MINOR_LOD_DIVISOR } else { MAJOR_LOD_DIVISOR };
            let (rr, detailed) = level_of_detail(b.radius, d, divisor);
            let star = matches!(b.class, BodyClass::Star);
            let radius = if self.is_black_hole && star { BLACK_HOLE_RENDER_RADIUS } else { rr };
            let v = BodyView {
                position: p,
                distance: d,
                render_radius: radius,
                detailed,
                instanced: minor,
                lit: detailed && !star,
            };
            let ghost old_views = views@;
            views.push(v);
            proof {
                lemma_instances_push(self.bodies@, old_views, v, i as int);
            }
            if minor {
                instances.push(Instance { position: p, render_radius: rr, color: b.color });
            }
            i += 1;
        }
        RenderPlan { target, light, views, instances }
    }

    /// Applies a camera key: zoom by one unit within `[MIN_ZOOM, MAX_ZOOM]`, or turn
    /// by 0.1 rad.
    pub fn handle_input(&mut self, key: CameraKey)
        requires
            old(self).wf(),
        ensures
            final(self).wf(),
            final(self).bodies@ == old(self).bodies@,
            final(self).camera_pitch == old(self).camera_pitch,
            key == CameraKey::ZoomIn ==> final(self).camera_distance == clamp_zoom(
                old(self).camera_distance - KEY_ZOOM_STEP),
            key == CameraKey::ZoomOut ==> final(self).camera_distance == clamp_zoom(
                old(self).camera_distance + KEY_ZOOM_STEP),
            key == CameraKey::TurnLeft ==> final(self).camera_yaw == wrap_turn(old(self).camera_yaw - KEY_TURN_STEP),
            key == CameraKey::TurnRight ==> final(self).camera_yaw == wrap_turn(old(self).camera_yaw + KEY_TURN_STEP),
            (key == CameraKey::ZoomIn || key == CameraKey::ZoomOut) ==> final(self).camera_yaw == old(self).camera_yaw,
            (key == CameraKey::TurnLeft || key == CameraKey::TurnRight) ==> final(self).camera_distance
                == old(self).camera_distance,
            *final(self) == (SolarSystem {
                camera_distance: final(self).camera_distance,
                camera_yaw: final(self).camera_yaw,
                ..*old(self)
            }),
    {
        match key {
            CameraKey::ZoomIn => {
                self.camera_distance = zoom_to(self.camera_distance as i128 - KEY_ZOOM_STEP as i128);
            },
            CameraKey::ZoomOut => {
                self.camera_distance = zoom_to(self.camera_distance as i128 + KEY_ZOOM_STEP as i128);
            },
            CameraKey::TurnLeft => {
                self.camera_yaw = add_angle(self.camera_yaw, -(KEY_TURN_STEP as i128));
            },
            CameraKey::TurnRight => {
                self.camera_yaw = add_angle(self.camera_yaw, KEY_TURN_STEP as i128);
            },
        }
    }

    /// Starts a mouse drag at `(x, y)`.
    pub fn handle_mouse_down(&mut self, x: i32, y: i32)
        requires
            old(self).wf(),
        ensures
            final(self).wf(),
            final(self).is_dragging,
            final(self).last_mouse_x == x && final(self).last_mouse_y == y,
            final(self).bodies@ == old(self).bodies@,
            final(self).camera_yaw == old(self).camera_yaw,
            final(self).camera_pitch == old(self).camera_pitch,
            *final(self) == (SolarSystem { is_dragging: true, last_mouse_x: x, last_mouse_y: y, ..*old(self) }),
    {
        self.is_dragging = true;
        self.last_mouse_x = x;
        self.last_mouse_y = y;
    }

    /// Ends a mouse drag.
    pub fn handle_mouse_up(&mut self)
        requires
            old(self).wf(),
        ensures
            final(self).wf(),
            !final(self).is_dragging,
            final(self).bodies@ == old(self).bodies@,
            *final(self) == (SolarSystem { is_dragging: false, ..*old(self) }),
    {
        self.is_dragging = false;
    }

    /// While dragging, turns the camera by 0.01 rad per pixel moved: horizontally in
    /// yaw, vertically in pitch, which stays within 1.5 rad either way.
    pub fn handle_mouse_move(&mut self, x: i32, y: i32)
        requires
            old(self).wf(),
        ensures
            final(self).wf(),
            final(self).bodies@ == old(self).bodies@,
            old(self).is_dragging ==> {
                &&& final(self).camera_yaw == wrap_turn(old(self).camera_yaw + (x - old(self).last_mouse_x)
                    * DRAG_STEP)
                &&& final(self).camera_pitch == clamp_pitch(old(self).camera_pitch + (y - old(self).last_mouse_y)
                    * DRAG_STEP)
                &&& final(self).last_mouse_x == x && final(self).last_mouse_y == y
            },
            !old(self).is_dragging ==> *final(self) == *old(self),
            *final(self) == (SolarSystem {
                camera_yaw: final(self).camera_yaw,
                camera_pitch: final(self).camera_pitch,
                last_mouse_x: final(self).last_mouse_x,
                last_mouse_y: final(self).last_mouse_y,
                ..*old(self)
            }),
    {
        if self.is_dragging {
            let dx: i128 = x as i128 - self.last_mouse_x as i128;
            let dy: i128 = y as i128 - self.last_mouse_y as i128;
            assert(-0x1_0000_0000_0000_0000_0000_0000 <= dx * DRAG_STEP <= 0x1_0000_0000_0000_0000_0000_0000)
                by (nonlinear_arith)
                requires
                    -0x1_0000_0000 <= dx <= 0x1_0000_0000,
                    DRAG_STEP == 5_729_577_951_308_232,
            ;
            assert(-0x1_0000_0000_0000_0000_0000_0000 <= dy * DRAG_STEP <= 0x1_0000_0000_0000_0000_0000_0000)
                by (nonlinear_arith)
                requires
                    -0x1_0000_0000 <= dy <= 0x1_0000_0000,
                    DRAG_STEP == 5_729_577_951_308_232,
            ;
            self.camera_yaw = add_angle(self.camera_yaw, dx * DRAG_STEP as i128);
            let pitch: i128 = self.camera_pitch as i128 + dy * DRAG_STEP as i128;
            self.camera_pitch = if pitch > PITCH_LIMIT as i128 {
                PITCH_LIMIT
            } else if pitch < -(PITCH_LIMIT as i128) {
                -PITCH_LIMIT
            } else {
                pitch as i64
            };
            self.last_mouse_x = x;
            self.last_mouse_y = y;
        }
    }

    /// Scales the camera distance by `factor_ppm` millionths (the caller's exponential
    /// of the wheel delta), rounded down, within `[MIN_ZOOM, MAX_ZOOM]`.
    pub fn handle_wheel(&mut self, factor_ppm: u64)
        requires
            old(self).wf(),
        ensures
            final(self).wf(),
            final(self).bodies@ == old(self).bodies@,
            final(self).camera_distance == clamp_zoom(old(self).camera_distance * factor_ppm / 1_000_000),
            *final(self) == (SolarSystem { camera_distance: final(self).camera_distance, ..*old(self) }),
    {
        assert(self.camera_distance * factor_ppm <= 0x1_0000_0000_0000_0000_0000_0000_0000)
            by (nonlinear_arith)
            requires
                self.camera_distance <= 0x1_0000_0000_0000,
                factor_ppm <= 0x1_0000_0000_0000_0000,
        ;
        let scaled: u128 = self.camera_distance as u128 * factor_ppm as u128 / 1_000_000;
        self.camera_distance = if scaled < MIN_ZOOM as u128 {
            MIN_ZOOM
        } else if scaled > MAX_ZOOM as u128 {
            MAX_ZOOM
        } else {
            scaled as u64
        };
    }
}

} // verus!
