//! The body catalogue: unit conversions for catalogue data, the builder of one body,
//! the named bodies of the system and the randomly generated bulk populations.
use vstd::prelude::*;
use crate::units::{TURN, TRIG_ONE, MAX_BODIES, isqrt, is_isqrt, wrap_turn, add_angle};
use crate::kepler::{ORBIT_LIMIT, valid_eccentricity};
use crate::body::{Body, BodyClass, Rgb, TextureSet};
use crate::clock::{rate_for_period, rate_of_period};
use crate::frames::parents_ordered;
use crate::clock::{SimClock, DEFAULT_MAX_STEP_US, SCALE_ONE};
use crate::trail::{TrailConfig, DEFAULT_SAMPLES_PER_ORBIT, DEFAULT_TRAIL_CAP};
use crate::system::{SolarSystem, DEFAULT_CAMERA_DISTANCE, DEFAULT_PITCH};

verus! {

/// Angle units per thousandth of a degree.
pub const UNITS_PER_MILLIDEGREE: u64 = 10_000_000_000_000;

/// Milliseconds in a thousandth of a day.
pub const MS_PER_MILLIDAY: u64 = 86_400;

/// Largest distance (micro-units) for which `kepler_period` computes a period; the
/// bulk populations reach 5 · 10^12.
pub const KEPLER_DISTANCE_LIMIT: u64 = 5_800_000_000_000;

/// Longest period accepted for a catalogue phase computation, in thousandths of a day.
pub const MAX_PHASE_PERIOD: u64 = 4_294_967_296;

/// An orbital period (thousandths of a day) from Kepler's third law in the catalogue's
/// scale, given `s`, the integer square root of the cubed distance in micro-units: a
/// body at 100 units orbits in 365.256 days, and the period grows as the distance to
/// the power 1.5.
pub open spec fn kepler_period_of(s: int) -> int {
    (365_256 * s) / 1_000_000_000_000
}

/// An angle given in thousandths of a degree (either sign), in angle units in `[0, TURN)`.
pub open spec fn angle_of_millidegrees(md: int) -> int {
    wrap_turn(md * (UNITS_PER_MILLIDEGREE as int))
}

/// A catalogue body's mean anomaly at a moment `elapsed_ms` after the reference epoch:
/// its mean longitude at the epoch plus the fraction of a revolution elapsed since.
pub open spec fn phase_of(l0_md: int, period_md: int, elapsed_ms: int) -> int {
    if period_md == 0 {
        angle_of_millidegrees(l0_md)
    } else {
        let p = period_md * (MS_PER_MILLIDAY as int);
        wrap_turn(angle_of_millidegrees(l0_md) + ((elapsed_ms % p) * (TURN as int)) / p)
    }
}

/// The decimal digit for `d` in `0..10`.
pub open spec fn digit_char(d: int) -> char {
    if d == 0 { '0' } else if d == 1 { '1' } else if d == 2 { '2' } else if d == 3 { '3' } else if d == 4 {
        '4'
    } else if d == 5 { '5' } else if d == 6 { '6' } else if d == 7 { '7' } else if d == 8 { '8' } else { '9' }
}

/// The decimal representation of `n`, without leading zeros.
pub open spec fn decimal_of(n: nat) -> Seq<char>
    decreases n,
{
    if n < 10 {
        seq![digit_char(n as int)]
    } else {
        decimal_of(n / 10).push(digit_char((n % 10) as int))
    }
}

/// The name of the `n`th member of a numbered population: the prefix, one space,
/// then `n` in decimal.
pub open spec fn numbered_name_of(prefix: Seq<char>, n: int) -> Seq<char> {
    prefix + seq![' '] + decimal_of(n as nat)
}

proof fn lemma_decimal_nonempty(n: nat)
    ensures
        decimal_of(n).len() >= 1,
        n >= 10 ==> decimal_of(n).len() >= 2,
    decreases n,
{
    if n >= 10 {
        lemma_decimal_nonempty(n / 10);
    }
}

/// Distinct numbers have distinct decimal representations.
pub proof fn lemma_decimal_injective(a: nat, b: nat)
    requires
        decimal_of(a) == decimal_of(b),
    ensures
        a == b,
    decreases a,
{
    lemma_decimal_nonempty(a);
    lemma_decimal_nonempty(b);
    if a >= 10 && b >= 10 {
        let da = decimal_of(a);
        let db = decimal_of(b);
        assert(da.last() == db.last());
        assert(da.drop_last() == decimal_of(a / 10));
        assert(db.drop_last() == decimal_of(b / 10));
        lemma_decimal_injective(a / 10, b / 10);
        assert(digit_char((a % 10) as int) == digit_char((b % 10) as int));
        assert(a % 10 == b % 10);
        vstd::arithmetic::div_mod::lemma_fundamental_div_mod(a as int, 10);
        vstd::arithmetic::div_mod::lemma_fundamental_div_mod(b as int, 10);
        assert(a == b);
    } else if a < 10 && b < 10 {
        assert(decimal_of(a) == seq![digit_char(a as int)]);
        assert(decimal_of(b) == seq![digit_char(b as int)]);
        assert(seq![digit_char(a as int)][0] == digit_char(a as int));
        assert(seq![digit_char(b as int)][0] == digit_char(b as int));
        assert(digit_char(a as int) == digit_char(b as int));
        assert(a == b);
    } else {
        assert(decimal_of(a).len() != decimal_of(b).len());
        assert(false);
    }
}

/// Members of one population with different numbers have different names.
pub proof fn lemma_numbered_names_distinct(prefix: Seq<char>, a: nat, b: nat)
    requires
        a != b,
    ensures
        numbered_name_of(prefix, a as int) != numbered_name_of(prefix, b as int),
{
    if numbered_name_of(prefix, a as int) == numbered_name_of(prefix, b as int) {
        let k = prefix.len() + 1;
        let na = numbered_name_of(prefix, a as int);
        let nb = numbered_name_of(prefix, b as int);
        assert(na.subrange(k as int, na.len() as int) =~= decimal_of(a));
        assert(nb.subrange(k as int, nb.len() as int) =~= decimal_of(b));
        lemma_decimal_injective(a, b);
    }
}

/// Relies on std's `format!` with the `Display` impls of `str` and `usize`: the prefix,
/// one space, then the number in decimal without leading zeros.
#[verifier::external_body]
fn numbered_name(prefix: &str, n: usize) -> (r: String)
    ensures
        r@ == numbered_name_of(prefix@, n as int),
{
    format!("{} {}", prefix, n)
}

/// Relies on `rand::thread_rng` and `rand::Rng::gen_range` (rand 0.8): a value drawn
/// from `lo..hi`; the call panics on an empty range, which `requires` excludes.
#[verifier::external_body]
fn draw(lo: u64, hi: u64) -> (r: u64)
    requires
        lo < hi,
    ensures
        lo <= r < hi,
{
    rand::Rng::gen_range(&mut rand::thread_rng(), lo..hi)
}

/// Converts thousandths of a degree to angle units.
pub fn millidegrees(md: i64) -> (r: u64)
    requires
        -360_000 < md < 360_000,
    ensures
        r == angle_of_millidegrees(md as int),
        r < TURN,
{
    add_angle(0, md as i128 * UNITS_PER_MILLIDEGREE as i128)
}

/// Converts an eccentricity in millionths to fixed point (rounded down).
pub fn eccentricity_from_ppm(ppm: u32) -> (r: i64)
    requires
        ppm < 1_000_000,
    ensures
        r == (ppm as int) * (TRIG_ONE as int) / 1_000_000,
        valid_eccentricity(r as int),
{
    assert(ppm as int * TRIG_ONE as int <= 999_999 * TRIG_ONE as int) by (nonlinear_arith)
        requires
            ppm < 1_000_000,
    ;
    let v: u64 = ppm as u64 * TRIG_ONE as u64 / 1_000_000;
    assert(v < TRIG_ONE) by {
        vstd::arithmetic::div_mod::lemma_div_is_ordered(ppm as int * TRIG_ONE as int,
            999_999 * TRIG_ONE as int, 1_000_000);
    }
    v as i64
}

/// The catalogue period (thousandths of a day) of a body at distance `dist` micro-units.
pub fn kepler_period(dist: u64) -> (r: u64)
    requires
        dist <= KEPLER_DISTANCE_LIMIT,
    ensures
        exists|s: int| is_isqrt(dist as int * dist as int * dist as int, s) && r == kepler_period_of(s),
        r <= 10_000_000_000_000,
{
    let d: u128 = dist as u128;
    assert(d * d <= 0x1000_0000_0000_0000_0000_0000) by (nonlinear_arith)
        requires
            d <= 5_800_000_000_000,
    ;
    assert(d * d * d <= 200_000_000_000_000_000_000_000_000_000_000_000_000) by (nonlinear_arith)
        requires
            d <= 5_800_000_000_000,
    ;
    let cube: u128 = d * d * d;
    let s = isqrt(cube);
    assert(s <= 15_000_000_000_000_000_000) by (nonlinear_arith)
        requires
            s * s <= cube,
            cube <= 200_000_000_000_000_000_000_000_000_000_000_000_000,
    ;
    assert(s <= 0x1_0000_0000_0000_0000);
    let p: u128 = 365_256 * s as u128 / 1_000_000_000_000;
    assert(p <= 0x1_0000_0000_0000_0000) by {
        vstd::arithmetic::div_mod::lemma_div_is_ordered(365_256 * s as int, 365_256 * 0x1_0000_0000_0000_0000int,
            1_000_000_000_000);
    }
    assert(p <= 10_000_000_000_000) by {
        vstd::arithmetic::div_mod::lemma_div_is_ordered(365_256 * s as int,
            365_256 * 15_000_000_000_000_000_000int, 1_000_000_000_000);
    }
    assert(p < 0x1_0000_0000_0000_0000);
    assert(is_isqrt(dist as int * dist as int * dist as int, s as int)
        && p as u64 == kepler_period_of(s as int));
    p as u64
}

/// A catalogue body's mean anomaly at `elapsed_ms` after the reference epoch, from
/// its mean longitude at the epoch (thousandths of a degree) and its period
/// (thousandths of a day; 0 for a body that does not orbit).
pub fn initial_phase(l0_md: u64, period_md: u64, elapsed_ms: i128) -> (r: u64)
    requires
        l0_md < 360_000,
        period_md <= MAX_PHASE_PERIOD,
    ensures
        r == phase_of(l0_md as int, period_md as int, elapsed_ms as int),
        r < TURN,
{
    let base = millidegrees(l0_md as i64);
    if period_md == 0 {
        return base;
    }
    let p: i128 = period_md as i128 * MS_PER_MILLIDAY as i128;
    let frac: i128 = match elapsed_ms.checked_rem_euclid(p) {
        Some(v) => v,
        None => 0,
    };
    assert(frac * TURN <= p * TURN) by (nonlinear_arith)
        requires
            0 <= frac < p,
    ;
    assert(p * TURN <= 0x1_0000_0000_0000_0000_0000_0000_0000) by (nonlinear_arith)
        requires
            p <= 0x2_0000_0000_0000,
            TURN <= 0x4000_0000_0000_0000,
    ;
    let add: i128 = frac * TURN as i128 / p;
    add_angle(base, add)
}

/// Orbital elements of a catalogue entry, in catalogue units.
#[derive(Clone, Copy, Debug, PartialEq, Eq, Structural)]
pub struct Elements {
    /// Micro-units.
    pub radius: u64,
    /// Micro-units.
    pub orbit_radius: u64,
    /// Orbital period in thousandths of a day; 0 for no orbital motion.
    pub period: u64,
    /// Angle units.
    pub orbit_angle: u64,
    /// Rotation period in thousandths of a day, sign for spin direction.
    pub rotation_period: i64,
    /// Thousandths of a degree.
    pub axial_tilt: i64,
    /// Thousandths of a degree.
    pub inclination: i64,
    /// Thousandths of a degree.
    pub node: i64,
    /// Thousandths of a degree.
    pub periapsis: i64,
    /// Millionths.
    pub eccentricity: u32,
}

impl Elements {
    pub open spec fn wf(&self) -> bool {
        &&& self.radius <= ORBIT_LIMIT
        &&& self.orbit_radius <= ORBIT_LIMIT
        &&& self.orbit_angle < TURN
        &&& self.period <= 0x4000_0000_0000_0000
        &&& -360_000 < self.axial_tilt < 360_000
        &&& -360_000 < self.inclination < 360_000
        &&& -360_000 < self.node < 360_000
        &&& -360_000 < self.periapsis < 360_000
        &&& self.eccentricity < 1_000_000
    }
}

/// Presentation data of a catalogue entry.
#[derive(Clone, Debug)]
pub struct Looks {
    pub color: Rgb,
    pub textures: TextureSet,
    pub ring_radius: u64,
    pub ring_inner_radius: Option<u16>,
    pub mass: String,
    pub temperature: u32,
    pub description: String,
}

/// A body as built: empty trail last extended at its mean anomaly, no spin or cloud
/// rotation accumulated yet.
pub open spec fn fresh(b: Body) -> bool {
    &&& b.trail@.len() == 0
    &&& b.last_trail_angle == b.orbit_angle
    &&& b.current_rotation == 0
    &&& b.cloud_rotation == 0
}

/// Builds one body from catalogue data: angles converted to angle units, the orbital
/// rate from the period, an empty trail last extended at the current mean anomaly.
/// In a black-hole system every body but the black hole itself is frozen at 30 K.
pub fn make_body(name: String, class: BodyClass, parent: Option<usize>, el: &Elements, looks: Looks,
    frozen: bool) -> (b: Body)
    requires
        el.wf(),
    ensures
        b.wf(),
        b.name@ == name@,
        b.class == class,
        b.parent == parent,
        b.radius == el.radius,
        b.orbit_radius == el.orbit_radius,
        b.orbit_angle == el.orbit_angle,
        b.orbit_speed == rate_of_period(el.period as int),
        b.eccentricity == (el.eccentricity as int) * (TRIG_ONE as int) / 1_000_000,
        b.orbit_inclination == angle_of_millidegrees(el.inclination as int),
        b.longitude_of_ascending_node == angle_of_millidegrees(el.node as int),
        b.argument_of_periapsis == angle_of_millidegrees(el.periapsis as int),
        b.axial_tilt == angle_of_millidegrees(el.axial_tilt as int),
        b.rotation_period == el.rotation_period,
        b.color == looks.color,
        fresh(b),
        b.is_frozen == frozen,
        b.temperature == (if frozen { 30 } else { looks.temperature }),
{
    let speed = rate_for_period(el.period as i64);
    let temperature = if frozen { 30 } else { looks.temperature };
    Body {
        name,
        class,
        radius: el.radius,
        orbit_radius: el.orbit_radius,
        orbit_speed: speed,
        orbit_angle: el.orbit_angle,
        color: looks.color,
        parent,
        textures: looks.textures,
        rotation_period: el.rotation_period,
        axial_tilt: millidegrees(el.axial_tilt),
        current_rotation: 0,
        cloud_rotation: 0,
        orbit_inclination: millidegrees(el.inclination),
        longitude_of_ascending_node: millidegrees(el.node),
        argument_of_periapsis: millidegrees(el.periapsis),
        eccentricity: eccentricity_from_ppm(el.eccentricity),
        ring_radius: looks.ring_radius,
        ring_inner_radius: looks.ring_inner_radius,
        mass: looks.mass,
        temperature,
        description: looks.description,
        is_frozen: frozen,
        trail: Vec::new(),
        last_trail_angle: el.orbit_angle,
    }
}

/// Every body is in range and every parent precedes its child.
pub open spec fn well_built(bodies: Seq<Body>) -> bool {
    &&& parents_ordered(bodies)
    &&& forall|i: int| 0 <= i < bodies.len() ==> (#[trigger] bodies[i]).wf()
}

/// Appends a body whose parent, if any, is already in the collection.
pub fn push_body(bodies: &mut Vec<Body>, b: Body)
    requires
        well_built(old(bodies)@),
        b.wf(),
        b.parent matches Some(p) ==> p < old(bodies).len(),
    ensures
        final(bodies)@ == old(bodies)@.push(b),
        well_built(final(bodies)@),
{
    let ghost n = bodies.len();
    bodies.push(b);
    assert forall|i: int| 0 <= i < bodies.len() && (#[trigger] bodies@[i].parent).is_some()
        implies bodies@[i].parent.unwrap() < i by {
        if i < n {
            assert(bodies@[i] == old(bodies)@[i]);
        }
    }
    assert forall|i: int| 0 <= i < bodies.len() implies (#[trigger] bodies@[i]).wf() by {
        if i < n {
            assert(bodies@[i] == old(bodies)@[i]);
        }
    }
}

/// The bulk populations.
#[derive(Clone, Copy, Debug, PartialEq, Eq, Structural)]
pub enum Population {
    /// Between Mars and Jupiter, 220 to 320 units.
    AsteroidBelt,
    /// Beyond Neptune, 3000 to 5500 units.
    KuiperBelt,
    /// 2000 to 50000 AU (100 units each), denser towards the inside.
    OortCloud,
}

/// Least and greatest distance (micro-units) of a population's members.
pub open spec fn population_range(p: Population) -> (int, int) {
    match p {
        Population::AsteroidBelt => (220_000_000, 319_999_999),
        Population::KuiperBelt => (3_000_000_000, 5_499_999_999),
        Population::OortCloud => (200_000_000_000, 5_000_000_000_000),
    }
}

/// `b` is a member of population `p`: a bulk body orbiting body 0 within the
/// population's distance range.
pub open spec fn is_member(b: Body, p: Population) -> bool {
    &&& b.class == BodyClass::Minor
    &&& b.parent == Some(0usize)
    &&& population_range(p).0 <= b.orbit_radius <= population_range(p).1
}

/// Name prefix of a population's members.
pub open spec fn prefix_of(p: Population) -> Seq<char> {
    match p {
        Population::AsteroidBelt => "Asteroid"@,
        Population::KuiperBelt => "Kuiper Object"@,
        Population::OortCloud => "Oort Object"@,
    }
}

/// Half-open range of a member's radius (micro-units).
pub open spec fn size_range(p: Population) -> (int, int) {
    match p {
        Population::AsteroidBelt => (10, 50),
        Population::KuiperBelt => (200, 600),
        Population::OortCloud => (50, 150),
    }
}

/// Largest inclination either way (thousandths of a degree).
pub open spec fn inclination_half(p: Population) -> int {
    match p {
        Population::AsteroidBelt => 10_000,
        Population::KuiperBelt => 20_000,
        Population::OortCloud => 90_000,
    }
}

/// Bound (exclusive) of a member's eccentricity, in millionths.
pub open spec fn eccentricity_bound(p: Population) -> int {
    match p {
        Population::AsteroidBelt => 200_000,
        Population::KuiperBelt => 300_000,
        Population::OortCloud => 500_000,
    }
}

/// Flat colour of a population's members.
pub open spec fn color_of(p: Population) -> Rgb {
    match p {
        Population::AsteroidBelt => Rgb { r: 500, g: 500, b: 500 },
        Population::KuiperBelt => Rgb { r: 600, g: 600, b: 700 },
        Population::OortCloud => Rgb { r: 800, g: 800, b: 900 },
    }
}

/// Temperature (kelvin) of a population's members.
pub open spec fn temperature_of(p: Population) -> int {
    match p {
        Population::AsteroidBelt => 150,
        Population::KuiperBelt => 40,
        Population::OortCloud => 10,
    }
}

/// Half-open range of the distance draw: micro-units for the belts; for the Oort
/// cloud a fraction `r` in millionths.
pub open spec fn spread_range(p: Population) -> (int, int) {
    match p {
        Population::AsteroidBelt => (220_000_000, 320_000_000),
        Population::KuiperBelt => (3_000_000_000, 5_500_000_000),
        Population::OortCloud => (0, 1_000_000),
    }
}

/// A member's distance from its spread draw: the draw itself for the belts; for the
/// Oort cloud `2000 AU + 48000 AU · r²` (100 units per AU), which puts more members
/// towards the inside.
pub open spec fn member_distance(p: Population, spread: int) -> int {
    match p {
        Population::OortCloud => 200_000_000_000 + (spread * spread / 1_000_000) * 4_800_000,
        _ => spread,
    }
}

/// The uniform draws behind one population member.
#[derive(Clone, Copy, Debug, PartialEq, Eq, Structural)]
pub struct MemberDraws {
    /// Mean anomaly, thousandths of a degree in `[0, 360000)`.
    pub angle: u64,
    /// Distance draw, see `spread_range`.
    pub spread: u64,
    /// Radius, micro-units, see `size_range`.
    pub size: u64,
    /// Rotation period, thousandths of a day in `[5000, 20000)`.
    pub rotation_period: u64,
    /// Axial tilt, thousandths of a degree in `[0, 30000)`.
    pub axial_tilt: u64,
    /// Inclination plus `inclination_half`, in `[0, 2 · inclination_half)`.
    pub inclination: u64,
    /// Longitude of the ascending node, thousandths of a degree in `[0, 360000)`.
    pub node: u64,
    /// Argument of periapsis, thousandths of a degree in `[0, 360000)`.
    pub periapsis: u64,
    /// Eccentricity in millionths, below `eccentricity_bound`.
    pub eccentricity: u64,
}

/// Every draw lies in its range.
pub open spec fn draws_fit(p: Population, d: MemberDraws) -> bool {
    &&& d.angle < 360_000
    &&& spread_range(p).0 <= d.spread < spread_range(p).1
    &&& size_range(p).0 <= d.size < size_range(p).1
    &&& 5_000 <= d.rotation_period < 20_000
    &&& d.axial_tilt < 30_000
    &&& d.inclination < 2 * inclination_half(p)
    &&& d.node < 360_000
    &&& d.periapsis < 360_000
    &&& d.eccentricity < eccentricity_bound(p)
}

/// Builds member `n` of a population from its draws.
pub fn population_member_from(p: Population, n: usize, d: &MemberDraws) -> (b: Body)
    requires
        draws_fit(p, *d),
    ensures
        b.wf(),
        fresh(b),
        b.name@ == numbered_name_of(prefix_of(p), n as int),
        is_member(b, p),
        b.orbit_radius == member_distance(p, d.spread as int),
        b.radius == d.size,
        b.orbit_angle == angle_of_millidegrees(d.angle as int),
        b.orbit_inclination == angle_of_millidegrees(d.inclination - inclination_half(p)),
        b.longitude_of_ascending_node == angle_of_millidegrees(d.node as int),
        b.argument_of_periapsis == angle_of_millidegrees(d.periapsis as int),
        b.axial_tilt == angle_of_millidegrees(d.axial_tilt as int),
        b.rotation_period == d.rotation_period,
        b.eccentricity == (d.eccentricity as int) * (TRIG_ONE as int) / 1_000_000,
        b.color == color_of(p),
        b.temperature == temperature_of(p),
        !b.is_frozen,
        exists|s: int| is_isqrt(b.orbit_radius * b.orbit_radius * b.orbit_radius, s)
            && b.orbit_speed == rate_of_period(kepler_period_of(s)),
{
    let (prefix, color, incl, temperature, description) = match p {
        Population::AsteroidBelt => ("Asteroid", Rgb { r: 500, g: 500, b: 500 }, 10_000i64, 150u32,
            "Asteroid Belt Object"),
        Population::KuiperBelt => ("Kuiper Object", Rgb { r: 600, g: 600, b: 700 }, 20_000, 40,
            "Kuiper Belt Object"),
        Population::OortCloud => ("Oort Object", Rgb { r: 800, g: 800, b: 900 }, 90_000, 10,
            "Oort Cloud Object"),
    };
    let dist: u64 = match p {
        Population::OortCloud => {
            let r = d.spread;
            assert(r * r * 4_800_000 <= 4_800_000_000_000_000_000) by (nonlinear_arith)
                requires
                    r < 1_000_000,
            ;
            assert(r * r / 1_000_000 <= 1_000_000) by {
                vstd::arithmetic::div_mod::lemma_div_is_ordered(r as int * r as int, 1_000_000_000_000int, 1_000_000);
            }
            let spread: u64 = r * r / 1_000_000 * 4_800_000;
            200_000_000_000 + spread
        },
        _ => d.spread,
    };
    let period = kepler_period(dist);
    let el = Elements {
        radius: d.size,
        orbit_radius: dist,
        period,
        orbit_angle: millidegrees(d.angle as i64),
        rotation_period: d.rotation_period as i64,
        axial_tilt: d.axial_tilt as i64,
        inclination: d.inclination as i64 - incl,
        node: d.node as i64,
        periapsis: d.periapsis as i64,
        eccentricity: d.eccentricity as u32,
    };
    let looks = Looks {
        color,
        textures: TextureSet { day: None, night: None, cloud: None, ring: None },
        ring_radius: 0,
        ring_inner_radius: None,
        mass: "Unknown".to_owned(),
        temperature,
        description: description.to_owned(),
    };
    let b = make_body(numbered_name(prefix, n), BodyClass::Minor, Some(0), &el, looks, false);
    assert(exists|s: int| is_isqrt(dist * dist * dist, s) && period == kepler_period_of(s));
    b
}

/// One random member of a population, numbered `n`, orbiting body 0.
fn population_member(p: Population, n: usize) -> (b: Body)
    ensures
        b.wf(),
        fresh(b),
        is_member(b, p),
        b.name@ == numbered_name_of(prefix_of(p), n as int),
{
    let incl2: u64 = match p {
        Population::AsteroidBelt => 20_000,
        Population::KuiperBelt => 40_000,
        Population::OortCloud => 180_000,
    };
    let (size_lo, size_hi, ecc_max) = match p {
        Population::AsteroidBelt => (10u64, 50u64, 200_000u64),
        Population::KuiperBelt => (200, 600, 300_000),
        Population::OortCloud => (50, 150, 500_000),
    };
    let spread = match p {
        Population::AsteroidBelt => draw(220_000_000, 320_000_000),
        Population::KuiperBelt => draw(3_000_000_000, 5_500_000_000),
        Population::OortCloud => draw(0, 1_000_000),
    };
    let d = MemberDraws {
        angle: draw(0, 360_000),
        spread,
        size: draw(size_lo, size_hi),
        rotation_period: draw(5_000, 20_000),
        axial_tilt: draw(0, 30_000),
        inclination: draw(0, incl2),
        node: draw(0, 360_000),
        periapsis: draw(0, 360_000),
        eccentricity: draw(0, ecc_max),
    };
    population_member_from(p, n, &d)
}

/// Appends `count` random members of a population.
pub fn push_population(bodies: &mut Vec<Body>, p: Population, count: usize)
    requires
        well_built(old(bodies)@),
        old(bodies).len() >= 1,
        old(bodies).len() + count <= MAX_BODIES,
    ensures
        well_built(final(bodies)@),
        final(bodies).len() == old(bodies).len() + count,
        forall|i: int| 0 <= i < old(bodies).len() ==> #[trigger] final(bodies)@[i] == old(bodies)@[i],
        forall|i: int| old(bodies).len() <= i < final(bodies).len() ==> is_member(#[trigger] final(bodies)@[i], p),
        forall|i: int| old(bodies).len() <= i < final(bodies).len() ==> fresh(#[trigger] final(bodies)@[i]),
        forall|i: int| old(bodies).len() <= i < final(bodies).len() ==> (#[trigger] final(bodies)@[i]).name@
            == numbered_name_of(prefix_of(p), i - old(bodies).len()),
{
    let mut n: usize = 0;
    while n < count
        invariant
            n <= count,
            bodies.len() == old(bodies).len() + n,
            old(bodies).len() >= 1,
            old(bodies).len() + count <= MAX_BODIES,
            well_built(bodies@),
            forall|i: int| 0 <= i < old(bodies).len() ==> #[trigger] bodies@[i] == old(bodies)@[i],
            forall|i: int| old(bodies).len() <= i < bodies.len() ==> is_member(#[trigger] bodies@[i], p),
            forall|i: int| old(bodies).len() <= i < bodies.len() ==> fresh(#[trigger] bodies@[i]),
            forall|i: int| old(bodies).len() <= i < bodies.len() ==> (#[trigger] bodies@[i]).name@
                == numbered_name_of(prefix_of(p), i - old(bodies).len()),
        decreases count - n,
    {
        let b = population_member(p, n);
        push_body(bodies, b);
        n += 1;
    }
}

/// Unix time of the reference epoch J2000 (2000-01-01 12:00 UTC), in milliseconds.
pub const J2000_MS: i64 = 946_728_000_000;

/// Number of bodies in a catalogue system.
pub const CATALOG_SIZE: usize = 13_524;

/// The population of catalogue index `i`, for the bulk-population ranges.
pub open spec fn population_at(i: int) -> Population {
    if i < 1509 {
        Population::AsteroidBelt
    } else if i < 3524 {
        Population::KuiperBelt
    } else {
        Population::OortCloud
    }
}

/// Catalogue index of the first member of `population_at(i)`.
pub open spec fn population_base(i: int) -> int {
    if i < 1509 {
        9
    } else if i < 3524 {
        1524
    } else {
        3524
    }
}

/// Elements of a named body, with its mean anomaly from its mean longitude `l0_md` at
/// the epoch and the time `elapsed_ms` since; nodes and periapses are at 0.
fn named_elements(radius: u64, orbit_radius: u64, period: u64, l0_md: u64, rotation_period: i64,
    axial_tilt: i64, inclination: i64, eccentricity: u32, elapsed_ms: i128) -> (r: Elements)
    requires
        radius <= ORBIT_LIMIT,
        orbit_radius <= ORBIT_LIMIT,
        period <= MAX_PHASE_PERIOD,
        l0_md < 360_000,
        -360_000 < axial_tilt < 360_000,
        -360_000 < inclination < 360_000,
        eccentricity < 1_000_000,
    ensures
        r.wf(),
        r.radius == radius,
        r.orbit_radius == orbit_radius,
        r.period == period,
        r.orbit_angle == phase_of(l0_md as int, period as int, elapsed_ms as int),
{
    Elements {
        radius,
        orbit_radius,
        period,
        orbit_angle: initial_phase(l0_md, period, elapsed_ms),
        rotation_period,
        axial_tilt,
        inclination,
        node: 0,
        periapsis: 0,
        eccentricity,
    }
}

fn owned(s: Option<&str>) -> (r: Option<String>)
    ensures
        r is Some <==> s is Some,
        r matches Some(o) ==> o@ == s.unwrap()@,
{
    match s {
        Some(t) => Some(t.to_owned()),
        None => None,
    }
}

/// Presentation data of a named body; colours in thousandths.
fn named_looks(color: Rgb, day: Option<&str>, night: Option<&str>, cloud: Option<&str>, ring: Option<&str>,
    ring_radius: u64, ring_inner_radius: Option<u16>, mass: &str, temperature: u32, description: &str) -> (r: Looks)
    ensures
        r.color == color,
        r.temperature == temperature,
        r.textures.cloud is Some <==> cloud is Some,
{
    Looks {
        color,
        textures: TextureSet { day: owned(day), night: owned(night), cloud: owned(cloud), ring: owned(ring) },
        ring_radius,
        ring_inner_radius,
        mass: mass.to_owned(),
        temperature,
        description: description.to_owned(),
    }
}

/// Appends a named body.
fn push_named(bodies: &mut Vec<Body>, name: &str, class: BodyClass, parent: Option<usize>, el: &Elements,
    looks: Looks, frozen: bool)
    requires
        well_built(old(bodies)@),
        el.wf(),
        parent matches Some(p) ==> p < old(bodies).len(),
    ensures
        well_built(final(bodies)@),
        final(bodies).len() == old(bodies).len() + 1,
        forall|i: int| 0 <= i < old(bodies).len() ==> #[trigger] final(bodies)@[i] == old(bodies)@[i],
        final(bodies)@[old(bodies).len() as int].class == class,
        final(bodies)@[old(bodies).len() as int].parent == parent,
        final(bodies)@[old(bodies).len() as int].name@ == name@,
        fresh(final(bodies)@[old(bodies).len() as int]),
{
    let b = make_body(name.to_owned(), class, parent, el, looks, frozen);
    push_body(bodies, b);
}

/// Appends the central body and the named bodies out to Ceres (indices 0 to 8).
fn push_inner(bodies: &mut Vec<Body>, bh: bool, t: i128)
    requires
        old(bodies).len() == 0,
    ensures
        well_built(final(bodies)@),
        final(bodies).len() == 9,
        final(bodies)@[0].class == BodyClass::Star,
        final(bodies)@[0].parent is None,
        forall|i: int| 0 <= i < 9 ==> (#[trigger] final(bodies)@[i]).class != BodyClass::Minor,
        forall|i: int| 0 <= i < 9 ==> fresh(#[trigger] final(bodies)@[i]),
{
    let none: Option<&str> = None;
    if bh {
        push_named(bodies, "Black Hole", BodyClass::Star, None,
            &named_elements(2, 0, 0, 0, 0, 0, 0, 0, t),
            named_looks(Rgb { r: 0, g: 0, b: 0 }, none, none, none, none, 0, None, "1.989 × 10^30 kg", 0,
                "A black hole with the same mass as the Sun. Event Horizon: 3km."), false);
    } else {
        push_named(bodies, "Sun", BodyClass::Star, None,
            &named_elements(465_000, 0, 0, 0, 25_000, 7_250, 0, 0, t),
            named_looks(Rgb { r: 1000, g: 1000, b: 0 }, Some("assets/textures/2k_sun.jpg"), none, none, none,
                0, None, "1.989 × 10^30 kg", 5778, "The star at the center of our Solar System."), false);
    }
    push_named(bodies, "Mercury", BodyClass::Major, Some(0),
        &named_elements(1_600, 39_000_000, 87_969, 252_250, 58_600, 30, 7_000, 205_000, t),
        named_looks(Rgb { r: 500, g: 500, b: 500 }, Some("assets/textures/2k_mercury.jpg"), none, none, none,
            0, None, "3.285 × 10^23 kg", 440,
            "The smallest planet in the Solar System and the closest to the Sun."), bh);
    push_named(bodies, "Venus", BodyClass::Major, Some(0),
        &named_elements(4_000, 72_000_000, 224_701, 181_980, -243_000, 177_300, 3_400, 7_000, t),
        named_looks(Rgb { r: 900, g: 700, b: 200 }, Some("assets/textures/2k_venus_surface.jpg"), none,
            Some("assets/textures/2k_venus_atmosphere.jpg"), none, 0, None, "4.867 × 10^24 kg", 737,
            "The second planet from the Sun. It has a dense atmosphere."), bh);
    if bh {
        push_named(bodies, "Earth", BodyClass::Major, Some(0),
            &named_elements(4_200, 100_000_000, 365_256, 100_460, 1_000, 23_400, 0, 17_000, t),
            named_looks(Rgb { r: 800, g: 900, b: 1000 }, Some("assets/textures/2k_earth_daymap.jpg"), none,
                none, none, 0, None, "5.972 × 10^24 kg", 30, "A frozen wasteland orbiting a black hole."), bh);
    } else {
        push_named(bodies, "Earth", BodyClass::Major, Some(0),
            &named_elements(4_200, 100_000_000, 365_256, 100_460, 1_000, 23_400, 0, 17_000, t),
            named_looks(Rgb { r: 0, g: 0, b: 1000 }, Some("assets/textures/2k_earth_daymap.jpg"),
                Some("assets/textures/2k_earth_nightmap.jpg"), Some("assets/textures/2k_earth_clouds.jpg"),
                none, 0, None, "5.972 × 10^24 kg", 288, "Our home planet, the third from the Sun."), bh);
    }
    push_named(bodies, "Moon", BodyClass::Major, Some(3),
        &named_elements(1_100, 257_000, 27_322, 0, 27_300, 6_700, 5_100, 55_000, t),
        named_looks(Rgb { r: 600, g: 600, b: 600 }, Some("assets/textures/2k_moon.jpg"), none, none, none, 0,
            None, "7.342 × 10^22 kg", 220, "Earth's only natural satellite."), bh);
    push_named(bodies, "Mars", BodyClass::Major, Some(0),
        &named_elements(2_200, 152_000_000, 686_980, 355_450, 1_030, 25_200, 1_850, 94_000, t),
        named_looks(Rgb { r: 1000, g: 0, b: 0 }, Some("assets/textures/2k_mars.jpg"), none, none, none, 0,
            None, "6.39 × 10^23 kg", 210, "The fourth planet from the Sun, known as the Red Planet."), bh);
    let mars = bodies.len() - 1;
    push_named(bodies, "Phobos", BodyClass::Major, Some(mars),
        &named_elements(80, 6_000, 319, 0, 319, 0, 1_000, 15_000, t),
        named_looks(Rgb { r: 600, g: 500, b: 400 }, Some("assets/textures/phobos.webp"), none, none, none, 0,
            None, "1.06 × 10^16 kg", 233, "The larger and inner of the two natural satellites of Mars."), bh);
    push_named(bodies, "Deimos", BodyClass::Major, Some(mars),
        &named_elements(40, 15_000, 1_262, 0, 1_262, 0, 900, 200, t),
        named_looks(Rgb { r: 700, g: 600, b: 500 }, Some("assets/textures/deimos.webp"), none, none, none, 0,
            None, "1.47 × 10^15 kg", 233, "The smaller and outer of the two natural satellites of Mars."), bh);
    push_named(bodies, "Ceres", BodyClass::Major, Some(0),
        &named_elements(290, 277_000_000, 1_681_600, 0, 375, 4_000, 10_600, 76_000, t),
        named_looks(Rgb { r: 400, g: 400, b: 400 }, Some("assets/textures/2k_ceres_fictional.jpg"), none, none,
            none, 0, None, "9.393 × 10^20 kg", 168, "The largest object in the asteroid belt."), bh);
}

/// Appends the named bodies from Jupiter to Eris (indices 1509 to 1523).
fn push_outer(bodies: &mut Vec<Body>, bh: bool, t: i128)
    requires
        well_built(old(bodies)@),
        old(bodies).len() == 1509,
    ensures
        well_built(final(bodies)@),
        final(bodies).len() == 1524,
        forall|i: int| 0 <= i < 1509 ==> #[trigger] final(bodies)@[i] == old(bodies)@[i],
        forall|i: int| 1509 <= i < 1524 ==> (#[trigger] final(bodies)@[i]).class != BodyClass::Minor,
        forall|i: int| 1509 <= i < 1524 ==> fresh(#[trigger] final(bodies)@[i]),
{
    let none: Option<&str> = None;
    push_named(bodies, "Jupiter", BodyClass::Major, Some(0),
        &named_elements(47_000, 520_000_000, 4_332_589, 34_400, 410, 3_100, 1_300, 49_000, t),
        named_looks(Rgb { r: 800, g: 600, b: 400 }, Some("assets/textures/2k_jupiter.jpg"), none, none, none,
            0, None, "1.898 × 10^27 kg", 165, "The largest planet in the Solar System."), bh);
    let jupiter = bodies.len() - 1;
    push_named(bodies, "Io", BodyClass::Major, Some(jupiter),
        &named_elements(1_200, 280_000, 1_769, 0, 1_769, 0, 0, 4_000, t),
        named_looks(Rgb { r: 800, g: 700, b: 200 }, Some("assets/textures/io.webp"), none, none, none, 0, None,
            "8.93 × 10^22 kg", 110, "Jupiter's innermost Galilean moon."), bh);
    push_named(bodies, "Europa", BodyClass::Major, Some(jupiter),
        &named_elements(1_000, 450_000, 3_550, 0, 3_550, 100, 470, 9_000, t),
        named_looks(Rgb { r: 900, g: 900, b: 800 }, Some("assets/textures/Europa.webp"), none, none, none, 0,
            None, "4.8 × 10^22 kg", 102, "Jupiter's icy moon."), bh);
    push_named(bodies, "Ganymede", BodyClass::Major, Some(jupiter),
        &named_elements(1_700, 710_000, 7_150, 0, 7_150, 200, 200, 1_000, t),
        named_looks(Rgb { r: 600, g: 600, b: 600 }, Some("assets/textures/Ganymede.webp"), none, none, none, 0,
            None, "1.48 × 10^23 kg", 110, "The largest moon in the Solar System."), bh);
    push_named(bodies, "Callisto", BodyClass::Major, Some(jupiter),
        &named_elements(1_600, 1_250_000, 16_690, 0, 16_690, 0, 200, 7_000, t),
        named_looks(Rgb { r: 400, g: 400, b: 400 }, Some("assets/textures/Callisto.webp"), none, none, none, 0,
            None, "1.08 × 10^23 kg", 134, "Jupiter's heavily cratered moon."), bh);
    push_named(bodies, "Saturn", BodyClass::Major, Some(0),
        &named_elements(39_000, 958_000_000, 10_759_220, 49_940, 450, 26_700, 2_480, 57_000, t),
        named_looks(Rgb { r: 900, g: 800, b: 500 }, Some("assets/textures/2k_saturn.jpg"), none, none,
            Some("assets/textures/2k_saturn_ring_alpha.png"), 90_000, Some(150), "5.683 × 10^26 kg", 134,
            "The sixth planet from the Sun, famous for its rings."), bh);
    let saturn = bodies.len() - 1;
    push_named(bodies, "Titan", BodyClass::Major, Some(saturn),
        &named_elements(1_700, 810_000, 15_940, 0, 15_940, 0, 300, 28_000, t),
        named_looks(Rgb { r: 900, g: 700, b: 200 }, none, none, none, none, 0, None, "1.345 × 10^23 kg", 94,
            "Saturn's largest moon."), bh);
    push_named(bodies, "Chariklo", BodyClass::Major, Some(0),
        &named_elements(80, 1_500_000_000, 22_911_000, 0, 300, 0, 23_400, 170_000, t),
        named_looks(Rgb { r: 500, g: 400, b: 500 }, Some("assets/textures/chariklo.webp"), none, none,
            Some("assets/textures/2k_saturn_ring_alpha.png"), 200, Some(400), "Unknown", 50,
            "A centaur with rings between Saturn and Uranus."), bh);
    push_named(bodies, "Uranus", BodyClass::Major, Some(0),
        &named_elements(17_000, 1_920_000_000, 30_685_400, 313_230, -720, 97_800, 770, 46_000, t),
        named_looks(Rgb { r: 0, g: 800, b: 800 }, Some("assets/textures/2k_uranus.jpg"), none, none, none, 0,
            None, "8.681 × 10^25 kg", 76, "The seventh planet from the Sun."), bh);
    push_named(bodies, "Neptune", BodyClass::Major, Some(0),
        &named_elements(16_000, 3_005_000_000, 60_189_000, 304_880, 670, 28_300, 1_770, 11_000, t),
        named_looks(Rgb { r: 0, g: 0, b: 800 }, Some("assets/textures/2k_neptune.jpg"), none, none, none, 0,
            None, "1.024 × 10^26 kg", 72, "The eighth and farthest-known Solar planet from the Sun."), bh);
    push_named(bodies, "Pluto", BodyClass::Major, Some(0),
        &named_elements(750, 3_948_000_000, 90_560_000, 0, -6_390, 122_500, 17_160, 244_000, t),
        named_looks(Rgb { r: 600, g: 500, b: 400 }, Some("assets/textures/Pluto.webp"), none, none, none, 0,
            None, "1.309 × 10^22 kg", 44, "A dwarf planet in the Kuiper belt."), bh);
    let pluto = bodies.len() - 1;
    push_named(bodies, "Charon", BodyClass::Major, Some(pluto),
        &named_elements(380, 13_000, 6_387, 0, 6_387, 0, 0, 0, t),
        named_looks(Rgb { r: 500, g: 500, b: 500 }, Some("assets/textures/Charon.webp"), none, none, none, 0,
            None, "1.586 × 10^21 kg", 53, "Pluto's largest moon."), bh);
    push_named(bodies, "Haumea", BodyClass::Major, Some(0),
        &named_elements(550, 4_313_000_000, 103_368_000, 0, 160, 0, 28_200, 191_000, t),
        named_looks(Rgb { r: 700, g: 700, b: 700 }, Some("assets/textures/2k_haumea_fictional.jpg"), none,
            none, none, 0, None, "4.006 × 10^21 kg", 50, "A dwarf planet located beyond Neptune's orbit."), bh);
    push_named(bodies, "Makemake", BodyClass::Major, Some(0),
        &named_elements(460, 4_579_000_000, 112_862_000, 0, 950, 0, 29_000, 159_000, t),
        named_looks(Rgb { r: 800, g: 600, b: 500 }, Some("assets/textures/2k_makemake_fictional.jpg"), none,
            none, none, 0, None, "3.1 × 10^21 kg", 30, "A dwarf planet in the Kuiper belt."), bh);
    push_named(bodies, "Eris", BodyClass::Major, Some(0),
        &named_elements(750, 6_767_000_000, 203_443_000, 0, 1_080, 78_000, 44_000, 441_000, t),
        named_looks(Rgb { r: 900, g: 900, b: 900 }, Some("assets/textures/2k_eris_fictional.jpg"), none, none,
            none, 0, None, "1.66 × 10^22 kg", 30, "The most massive and second-largest known dwarf planet."), bh);
}

impl SolarSystem {
    /// The catalogue system at wall-clock time `now_us` (microseconds since the Unix
    /// epoch): the central body (the Sun, or a black hole of the Sun's mass), the
    /// planets, moons and dwarf planets at their mean anomalies for that date, and the
    /// random asteroid-belt, Kuiper-belt and Oort-cloud populations, focused on the
    /// Earth. Trails start empty.
    pub fn new(is_black_hole_mode: bool, now_us: i64) -> (r: SolarSystem)
        ensures
            r.wf(),
            r.bodies.len() == CATALOG_SIZE,
            r.bodies@[0].class == BodyClass::Star,
            r.bodies@[0].parent is None,
            r.focused_body_index == Some(3usize),
            r.is_black_hole == is_black_hole_mode,
            r.clock.current_time_us == now_us,
            r.clock.last_wall_us == now_us,
            forall|i: int| 0 <= i < CATALOG_SIZE ==> ((#[trigger] r.bodies@[i]).class == BodyClass::Minor
                <==> (9 <= i < 1509 || 1524 <= i < CATALOG_SIZE)),
            forall|i: int| 9 <= i < 1509 ==> is_member(#[trigger] r.bodies@[i], Population::AsteroidBelt),
            forall|i: int| 1524 <= i < 3524 ==> is_member(#[trigger] r.bodies@[i], Population::KuiperBelt),
            forall|i: int| 3524 <= i < CATALOG_SIZE ==> is_member(#[trigger] r.bodies@[i], Population::OortCloud),
            forall|i: int| 0 <= i < CATALOG_SIZE ==> fresh(#[trigger] r.bodies@[i]),
            forall|i: int, j: int| 0 <= i < j < CATALOG_SIZE && r.bodies@[i].class == BodyClass::Minor
                && r.bodies@[j].class == BodyClass::Minor ==> (#[trigger] r.bodies@[i]).name@
                != (#[trigger] r.bodies@[j]).name@,
            r.clock == (SimClock {
                current_time_us: now_us,
                last_wall_us: now_us,
                time_scale: SCALE_ONE,
                max_step_us: DEFAULT_MAX_STEP_US,
            }),
            r.trail_config == (TrailConfig { samples_per_orbit: DEFAULT_SAMPLES_PER_ORBIT, cap: DEFAULT_TRAIL_CAP }),
            r.camera_distance == DEFAULT_CAMERA_DISTANCE,
            r.camera_pitch == DEFAULT_PITCH,
            r.camera_yaw == 0,
            !r.is_dragging,
            r.use_celsius,
    {
        let now_ms: i128 = match (now_us as i128).checked_div_euclid(1000) {
            Some(v) => v,
            None => 0,
        };
        let t: i128 = now_ms - J2000_MS as i128;
        let bh = is_black_hole_mode;
        let mut bodies: Vec<Body> = Vec::new();
        push_inner(&mut bodies, bh, t);
        let ghost s1 = bodies@;
        push_population(&mut bodies, Population::AsteroidBelt, 1500);
        let ghost s2 = bodies@;
        push_outer(&mut bodies, bh, t);
        let ghost s3 = bodies@;
        push_population(&mut bodies, Population::KuiperBelt, 2000);
        let ghost s4 = bodies@;
        push_population(&mut bodies, Population::OortCloud, 10000);
        assert forall|i: int| 0 <= i < CATALOG_SIZE implies ((#[trigger] bodies@[i]).class == BodyClass::Minor
            <==> (9 <= i < 1509 || 1524 <= i < CATALOG_SIZE)) && fresh(bodies@[i]) by {
            if i < 3524 {
                assert(bodies@[i] == s4[i]);
                if i < 1524 {
                    assert(s4[i] == s3[i]);
                    if i < 1509 {
                        assert(s3[i] == s2[i]);
                        if i < 9 {
                            assert(s2[i] == s1[i]);
                        }
                    }
                }
            }
        }
        assert forall|i: int| 0 <= i < CATALOG_SIZE && bodies@[i].class == BodyClass::Minor implies
            (#[trigger] bodies@[i]).name@ == numbered_name_of(prefix_of(population_at(i)), i - population_base(i)) by {
            if i < 3524 {
                assert(bodies@[i] == s4[i]);
                if i < 1524 {
                    assert(s4[i] == s3[i]);
                    if i < 1509 {
                        assert(s3[i] == s2[i]);
                    }
                }
            }
        }
        proof {
            reveal_strlit("Asteroid");
            reveal_strlit("Kuiper Object");
            reveal_strlit("Oort Object");
        }
        assert forall|i: int, j: int| 0 <= i < j < CATALOG_SIZE && bodies@[i].class == BodyClass::Minor
            && bodies@[j].class == BodyClass::Minor implies (#[trigger] bodies@[i]).name@
            != (#[trigger] bodies@[j]).name@ by {
            let (pi, pj) = (population_at(i), population_at(j));
            if pi == pj {
                lemma_numbered_names_distinct(prefix_of(pi), (i - population_base(i)) as nat,
                    (j - population_base(j)) as nat);
            } else {
                assert(numbered_name_of(prefix_of(pi), i - population_base(i))[0] == prefix_of(pi)[0]);
                assert(numbered_name_of(prefix_of(pj), j - population_base(j))[0] == prefix_of(pj)[0]);
            }
        }
        SolarSystem {
            bodies,
            clock: SimClock::new(now_us, now_us),
            camera_distance: DEFAULT_CAMERA_DISTANCE,
            camera_pitch: DEFAULT_PITCH,
            camera_yaw: 0,
            is_dragging: false,
            last_mouse_x: 0,
            last_mouse_y: 0,
            focused_body_index: Some(3),
            is_black_hole: is_black_hole_mode,
            use_celsius: true,
            trail_config: TrailConfig::new_default(),
        }
    }
}

} // verus!
