//! The body record: orbital elements, hierarchy, spin, presentation data and the
//! mutable simulation state of one celestial object.
use vstd::prelude::*;
use crate::units::{TURN, TRIG_ONE, LOCAL_LIMIT, Vec3, within};
use crate::kepler::{ORBIT_LIMIT, valid_eccentricity};

verus! {

/// Bound on the magnitude of an orbital angular rate, in angle units per simulated
/// second (one revolution per second).
pub const SPEED_LIMIT: i64 = 3_600_000_000_000_000_000;

/// How a body is treated by the trail, label and instancing policies.
#[derive(Clone, Copy, Debug, PartialEq, Eq, Structural)]
pub enum BodyClass {
    /// The central body of the system (a star or a black hole).
    Star,
    /// A named planet, moon or dwarf planet: drawn individually, labelled, with a trail.
    Major,
    /// A member of a bulk population (asteroid belt, Kuiper belt, Oort cloud): drawn
    /// in one instanced batch, without label or trail.
    Minor,
}

/// A colour, each channel in thousandths.
#[derive(Clone, Copy, Debug, PartialEq, Eq, Structural)]
pub struct Rgb {
    pub r: u16,
    pub g: u16,
    pub b: u16,
}

/// Asset paths of the optional textures of a body; opaque to the simulation.
#[derive(Clone, Debug)]
pub struct TextureSet {
    pub day: Option<String>,
    pub night: Option<String>,
    pub cloud: Option<String>,
    pub ring: Option<String>,
}

/// One celestial object.
///
/// Lengths are in micro-units, angles in angle units (`TURN` per revolution),
/// eccentricity in fixed point (`TRIG_ONE` is 1), colours in thousandths.
#[derive(Clone, Debug)]
pub struct Body {
    pub name: String,
    pub class: BodyClass,
    /// Render scale.
    pub radius: u64,
    /// Semi-major axis; 0 for a stationary body.
    pub orbit_radius: u64,
    /// Mean angular rate, angle units per simulated second.
    pub orbit_speed: i64,
    /// Mean anomaly, in `[0, TURN)`.
    pub orbit_angle: u64,
    pub color: Rgb,
    /// Index of the parent body, always below this body's own index.
    pub parent: Option<usize>,
    pub textures: TextureSet,
    /// Rotation period in thousandths of a day; its sign gives the spin direction.
    pub rotation_period: i64,
    pub axial_tilt: u64,
    /// Accumulated spin angle, in `[0, TURN)`.
    pub current_rotation: u64,
    /// Accumulated rotation of the cloud layer, in `[0, TURN)`.
    pub cloud_rotation: u64,
    pub orbit_inclination: u64,
    pub longitude_of_ascending_node: u64,
    pub argument_of_periapsis: u64,
    pub eccentricity: i64,
    /// Ring extent (micro-units) and inner edge (thousandths of the extent).
    pub ring_radius: u64,
    pub ring_inner_radius: Option<u16>,
    pub mass: String,
    /// Kelvin.
    pub temperature: u32,
    pub description: String,
    pub is_frozen: bool,
    /// Past positions in the parent's frame, oldest first.
    pub trail: Vec<Vec3>,
    /// Mean anomaly at which the trail was last extended, in `[0, TURN)`.
    pub last_trail_angle: u64,
}

impl Body {
    /// The orbital elements and angles are in range.
    pub open spec fn wf(&self) -> bool {
        &&& self.orbit_radius <= ORBIT_LIMIT
        &&& self.radius <= ORBIT_LIMIT
        &&& valid_eccentricity(self.eccentricity as int)
        &&& -SPEED_LIMIT <= self.orbit_speed <= SPEED_LIMIT
        &&& self.orbit_angle < TURN
        &&& self.current_rotation < TURN
        &&& self.cloud_rotation < TURN
        &&& self.last_trail_angle < TURN
        &&& self.orbit_inclination < TURN
        &&& self.longitude_of_ascending_node < TURN
        &&& self.argument_of_periapsis < TURN
        &&& self.axial_tilt < TURN
        &&& forall|k: int| 0 <= k < self.trail.len() ==> within(#[trigger] self.trail@[k], LOCAL_LIMIT as int)
    }

    /// Checks the orbital elements, angles and trail samples against their ranges.
    pub fn elements_valid(&self) -> (r: bool)
        ensures
            r == self.wf(),
    {
        if !(self.orbit_radius <= ORBIT_LIMIT && self.radius <= ORBIT_LIMIT && 0 <= self.eccentricity
            && self.eccentricity < TRIG_ONE && -SPEED_LIMIT <= self.orbit_speed
            && self.orbit_speed <= SPEED_LIMIT && self.orbit_angle < TURN && self.current_rotation < TURN
            && self.cloud_rotation < TURN && self.last_trail_angle < TURN
            && self.orbit_inclination < TURN && self.longitude_of_ascending_node < TURN
            && self.argument_of_periapsis < TURN && self.axial_tilt < TURN) {
            return false;
        }
        let mut k: usize = 0;
        while k < self.trail.len()
            invariant
                k <= self.trail.len(),
                forall|j: int| 0 <= j < k ==> within(#[trigger] self.trail@[j], LOCAL_LIMIT as int),
            decreases self.trail.len() - k,
        {
            let p = self.trail[k];
            if !(-LOCAL_LIMIT <= p.x && p.x <= LOCAL_LIMIT && -LOCAL_LIMIT <= p.y && p.y <= LOCAL_LIMIT
                && -LOCAL_LIMIT <= p.z && p.z <= LOCAL_LIMIT) {
                return false;
            }
            k += 1;
        }
        true
    }

    /// Whether the body keeps an orbit trail: it orbits, and is not a bulk-population member.
    pub open spec fn tracks_trail_spec(&self) -> bool {
        self.orbit_radius > 0 && self.class != BodyClass::Minor
    }

    /// Whether the body keeps an orbit trail: it orbits, and is not a bulk-population member.
    pub fn tracks_trail(&self) -> (r: bool)
        ensures
            r == self.tracks_trail_spec(),
    {
        self.orbit_radius > 0 && !matches!(self.class, BodyClass::Minor)
    }

    /// Whether the body is a bulk-population member, drawn by instancing.
    pub fn is_minor(&self) -> (r: bool)
        ensures
            r == (self.class == BodyClass::Minor),
    {
        matches!(self.class, BodyClass::Minor)
    }
}

} // verus!
