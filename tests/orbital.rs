use orbital_core::blocks::BlockType;
use orbital_core::body::{Body, BodyClass, Rgb, TextureSet};
use orbital_core::catalog::{make_body, Elements, Looks};
use orbital_core::kepler::{eccentric_anomaly, orbit_offset, OrbitTrig};
use orbital_core::units::{Vec3, TRIG_ONE, TURN};

fn fixed(x: f64) -> i64 {
    let v = (x * TRIG_ONE as f64).round() as i64;
    v.clamp(-TRIG_ONE, TRIG_ONE)
}

fn radians(a: u64) -> f64 {
    a as f64 / TURN as f64 * std::f64::consts::TAU
}

/// Local offset of a body at mean anomaly `m`, with the sines and cosines from f64.
pub fn local_offset(b: &Body, m: u64) -> Vec3 {
    let e = b.eccentricity;
    let ef = e as f64 / TRIG_ONE as f64;
    let big_e = eccentric_anomaly(m, e, fixed(radians(m).sin()));
    let t = OrbitTrig {
        cos_e: fixed(radians(big_e).cos()),
        sin_e: fixed(radians(big_e).sin()),
        cos_w: fixed(radians(b.argument_of_periapsis).cos()),
        sin_w: fixed(radians(b.argument_of_periapsis).sin()),
        cos_i: fixed(radians(b.orbit_inclination).cos()),
        sin_i: fixed(radians(b.orbit_inclination).sin()),
        cos_o: fixed(radians(b.longitude_of_ascending_node).cos()),
        sin_o: fixed(radians(b.longitude_of_ascending_node).sin()),
        minor_ratio: fixed((1.0 - ef * ef).sqrt()).max(0),
    };
    orbit_offset(b.orbit_radius, e, &t)
}

pub fn plain_looks() -> Looks {
    Looks {
        color: Rgb { r: 500, g: 500, b: 500 },
        textures: TextureSet { day: None, night: None, cloud: None, ring: None },
        ring_radius: 0,
        ring_inner_radius: None,
        mass: "Unknown".to_string(),
        temperature: 100,
        description: String::new(),
    }
}

pub fn elements(radius: u64, orbit_radius: u64, period: u64, orbit_angle: u64, ecc_ppm: u32) -> Elements {
    Elements {
        radius,
        orbit_radius,
        period,
        orbit_angle,
        rotation_period: 0,
        axial_tilt: 0,
        inclination: 0,
        node: 0,
        periapsis: 0,
        eccentricity: ecc_ppm,
    }
}

pub fn body(name: &str, class: BodyClass, parent: Option<usize>, el: &Elements) -> Body {
    make_body(name.to_string(), class, parent, el, plain_looks(), false)
}

/// A star at the origin and one planet of the given period (thousandths of a day).
pub fn star_and_planet(period: u64) -> SolarSystem {
    let bodies = vec![
        body("Star", BodyClass::Star, None, &elements(465_000, 0, 0, 0, 0)),
        body("Planet", BodyClass::Major, Some(0), &elements(4_200, 100_000_000, period, 0, 0)),
    ];
    SolarSystem::from_bodies(bodies, 0, 0, false).unwrap()
}

/// Fills every trail that is due with positions from `local_offset`.
pub fn fill_trails(sys: &mut SolarSystem, initial: bool) {
    for i in 0..sys.bodies.len() {
        let plan = if initial { sys.initial_trail_plan(i) } else { sys.trail_plan(i) };
        let samples: Vec<Vec3> = plan.angles.iter().map(|a| local_offset(&sys.bodies[i], *a)).collect();
        sys.extend_trail(i, &samples, plan.next_last);
    }
}

use orbital_core::catalog::{initial_phase, kepler_period, millidegrees, population_member_from, MemberDraws, Population, CATALOG_SIZE};
use orbital_core::clock::SimClock;
use orbital_core::frames::{check_parent_order, resolve_world};
use orbital_core::info::{orbital_period_seconds, orbital_speed};
use orbital_core::system::{SolarSystem, BuildError, CameraKey, MAX_ZOOM, MIN_ZOOM, PITCH_LIMIT};
use orbital_core::trail::TrailConfig;
use orbital_core::units::{add_angle, isqrt, TURN_PER_RADIAN};
use orbital_core::view::{label_visibility, level_of_detail, on_screen, ScreenBody, MAJOR_LOD_DIVISOR};

const UNIT: i64 = 1_000_000;

#[test]
fn circular_orbit_at_zero_angle() {
    let b = body("P", BodyClass::Major, Some(0), &elements(1, 100 * UNIT as u64, 1000, 0, 0));
    assert_eq!(local_offset(&b, 0), Vec3 { x: 100 * UNIT, y: 0, z: 0 });
}

#[test]
fn circular_orbit_at_quarter_turn() {
    let b = body("P", BodyClass::Major, Some(0), &elements(1, 100 * UNIT as u64, 1000, 0, 0));
    let p = local_offset(&b, TURN / 4);
    assert!(p.x.abs() <= 2, "{:?}", p);
    assert_eq!(p.y, 0);
    assert!((p.z - 100 * UNIT).abs() <= 2, "{:?}", p);
}

#[test]
fn circular_orbit_keeps_its_radius() {
    let el = Elements { inclination: 30_000, node: 45_000, periapsis: 10_000, ..elements(1, 100 * UNIT as u64, 1000, 0, 0) };
    let b = body("P", BodyClass::Major, Some(0), &el);
    for k in 0..16u64 {
        let p = local_offset(&b, TURN / 16 * k);
        let r = ((p.x as f64).powi(2) + (p.y as f64).powi(2) + (p.z as f64).powi(2)).sqrt();
        assert!((r - 1.0e8).abs() / 1.0e8 < 1e-4, "angle {} radius {}", k, r);
    }
}

#[test]
fn stationary_body_sits_at_its_focus() {
    let b = body("S", BodyClass::Star, None, &elements(465_000, 0, 0, 0, 0));
    assert_eq!(local_offset(&b, TURN / 3), Vec3 { x: 0, y: 0, z: 0 });
}

#[test]
fn eccentric_anomaly_of_circle_is_mean_anomaly() {
    assert_eq!(eccentric_anomaly(TURN / 5, 0, TRIG_ONE / 2), TURN / 5);
    // e = 0.5 and sin M = 1 shift M by half a radian.
    assert_eq!(eccentric_anomaly(0, TRIG_ONE / 2, TRIG_ONE), TURN_PER_RADIAN / 2);
}

#[test]
fn hierarchical_composition() {
    let bodies = vec![
        body("Sun", BodyClass::Star, None, &elements(1, 0, 0, 0, 0)),
        body("Earth", BodyClass::Major, Some(0), &elements(1, 100 * UNIT as u64, 1000, 0, 0)),
        body("Moon", BodyClass::Major, Some(1), &elements(1, 257_000, 1000, 0, 0)),
    ];
    let locals = vec![
        Vec3 { x: 0, y: 0, z: 0 },
        Vec3 { x: 100 * UNIT, y: 0, z: 0 },
        Vec3 { x: 257_000, y: 0, z: 0 },
    ];
    let w = resolve_world(&bodies, &locals);
    assert_eq!(w[1], Vec3 { x: 100 * UNIT, y: 0, z: 0 });
    assert_eq!(w[2], Vec3 { x: 100_257_000, y: 0, z: 0 });
}

#[test]
fn parent_after_child_is_refused() {
    let bodies = vec![
        body("Sun", BodyClass::Star, None, &elements(1, 0, 0, 0, 0)),
        body("Moon", BodyClass::Major, Some(2), &elements(1, 257_000, 1000, 0, 0)),
        body("Earth", BodyClass::Major, Some(0), &elements(1, 100 * UNIT as u64, 1000, 0, 0)),
    ];
    assert_eq!(check_parent_order(&bodies), Err(1));
    assert_eq!(SolarSystem::from_bodies(bodies, 0, 0, false).err(), Some(BuildError::ParentNotBefore(1)));
}

#[test]
fn self_parent_is_refused() {
    let bodies = vec![body("Loop", BodyClass::Major, Some(0), &elements(1, 5, 1000, 0, 0))];
    assert_eq!(SolarSystem::from_bodies(bodies, 0, 0, false).err(), Some(BuildError::ParentNotBefore(0)));
}

#[test]
fn eccentricity_of_one_is_refused() {
    let mut bad = body("Comet", BodyClass::Major, Some(0), &elements(1, 5 * UNIT as u64, 1000, 0, 0));
    bad.eccentricity = TRIG_ONE;
    let bodies = vec![body("Sun", BodyClass::Star, None, &elements(1, 0, 0, 0, 0)), bad];
    assert_eq!(SolarSystem::from_bodies(bodies, 0, 0, false).err(), Some(BuildError::InvalidElements(1)));
}

#[test]
fn valid_collection_is_accepted() {
    let sys = star_and_planet(1000);
    assert_eq!(sys.bodies.len(), 2);
    assert_eq!(sys.focused_body_index, None);
}

#[test]
fn zero_speed_body_never_moves() {
    let mut sys = star_and_planet(0);
    sys.bodies[1].orbit_angle = TURN / 7;
    sys.set_time_scale(1_000_000);
    for k in 1..50 {
        sys.update(k * 50_000);
        assert_eq!(sys.bodies[1].orbit_angle, TURN / 7);
    }
}

#[test]
fn mean_anomaly_stays_wrapped() {
    let mut sys = star_and_planet(1);
    sys.set_time_scale(10_000_000_000);
    for k in 1..20 {
        sys.update(k * 100_000);
        assert!(sys.bodies[1].orbit_angle < TURN);
        assert!(sys.bodies[1].current_rotation < TURN);
    }
}

#[test]
fn one_tick_advance_is_exact() {
    // One revolution per 1000 simulated seconds; a 0.05 s tick at rate 100 sweeps 5 s.
    let mut sys = star_and_planet(0);
    sys.bodies[1].orbit_speed = (TURN / 1000) as i64;
    sys.set_time_scale(100_000);
    sys.update(50_000);
    assert_eq!(sys.bodies[1].orbit_angle, TURN / 200);
    assert_eq!(sys.clock.current_time_us, 5_000_000);
}

#[test]
fn dt_clamp() {
    let mut long_gap = star_and_planet(1000);
    let mut short_gap = star_and_planet(1000);
    long_gap.set_time_scale(1_000_000);
    short_gap.set_time_scale(1_000_000);
    long_gap.update(10_000_000);
    short_gap.update(100_000);
    assert_eq!(long_gap.bodies[1].orbit_angle, short_gap.bodies[1].orbit_angle);
    assert_eq!(long_gap.clock.current_time_us, short_gap.clock.current_time_us);
    assert!(long_gap.bodies[1].orbit_angle > 0);
}

#[test]
fn clock_ignores_backward_wall_clock() {
    let mut c = SimClock::new(0, 1_000_000);
    assert_eq!(c.tick(500_000), 0);
    assert_eq!(c.current_time_us, 0);
    assert_eq!(c.last_wall_us, 500_000);
}

#[test]
fn time_scale_is_clamped() {
    let mut c = SimClock::new(0, 0);
    c.set_time_scale(i64::MAX);
    assert_eq!(c.time_scale, 10_000_000_000);
    c.set_time_scale(-5);
    assert_eq!(c.time_scale, -5);
}

#[test]
fn trail_cap() {
    let mut sys = star_and_planet(1000);
    sys.trail_config = TrailConfig { samples_per_orbit: 1000, cap: 1000 };
    fill_trails(&mut sys, true);
    assert_eq!(sys.bodies[1].trail.len(), 1000);
    assert_eq!(sys.bodies[0].trail.len(), 0);
    sys.set_time_scale(1_000_000_000);
    for k in 1..6 {
        sys.update(k * 100_000);
        fill_trails(&mut sys, false);
        assert_eq!(sys.bodies[1].trail.len(), 1000);
    }
}

#[test]
fn trail_appends_one_sample_per_step() {
    let mut sys = star_and_planet(1000);
    sys.trail_config = TrailConfig { samples_per_orbit: 100, cap: 1000 };
    // Two and a half steps of the 100-sample spacing.
    sys.bodies[1].orbit_angle = TURN / 40;
    let plan = sys.trail_plan(1);
    assert_eq!(plan.angles, vec![TURN / 100, 2 * TURN / 100]);
    assert_eq!(plan.next_last, 2 * TURN / 100);
    fill_trails(&mut sys, false);
    assert_eq!(sys.bodies[1].trail.len(), 2);
    assert_eq!(sys.bodies[1].last_trail_angle, 2 * TURN / 100);
}

#[test]
fn trail_step_across_wrap() {
    let mut sys = star_and_planet(1000);
    sys.trail_config = TrailConfig { samples_per_orbit: 4, cap: 10 };
    sys.bodies[1].last_trail_angle = 3 * TURN / 4;
    sys.bodies[1].orbit_angle = TURN / 8;
    let plan = sys.trail_plan(1);
    assert_eq!(plan.angles, vec![0]);
    assert_eq!(plan.next_last, 0);
}

#[test]
fn minor_bodies_keep_no_trail() {
    let bodies = vec![
        body("Sun", BodyClass::Star, None, &elements(1, 0, 0, 0, 0)),
        body("Rock", BodyClass::Minor, Some(0), &elements(20, 250 * UNIT as u64, 1000, TURN / 2, 0)),
    ];
    let sys = SolarSystem::from_bodies(bodies, 0, 0, false).unwrap();
    assert!(sys.initial_trail_plan(1).angles.is_empty());
    assert!(sys.trail_plan(1).angles.is_empty());
}

#[test]
fn focus_recentring_round_trip() {
    let mut sys = star_and_planet(1000);
    sys.select_body(1);
    let locals = vec![Vec3 { x: 0, y: 0, z: 0 }, Vec3 { x: 3 * UNIT, y: -UNIT, z: 7 }];
    let worlds = sys.world_positions(&locals);
    let plan = sys.render(&worlds, &Vec3 { x: 0, y: 0, z: 21_000 });
    assert_eq!(plan.views[1].position, Vec3 { x: 0, y: 0, z: 0 });
    assert_eq!(plan.views[0].position, Vec3 { x: -3 * UNIT, y: UNIT, z: -7 });
    assert_eq!(plan.light, Vec3 { x: -3 * UNIT, y: UNIT, z: -7 });
    assert_eq!(plan.views[1].distance, 21_000);
}

#[test]
fn out_of_range_selection_clears_focus() {
    let mut sys = star_and_planet(1000);
    sys.select_body(1);
    assert_eq!(sys.focused_body_index, Some(1));
    assert_eq!(sys.camera_distance, 5 * 4_200);
    sys.select_body(7);
    assert_eq!(sys.focused_body_index, None);
    let worlds = sys.world_positions(&vec![Vec3 { x: 0, y: 0, z: 0 }, Vec3 { x: 5, y: 0, z: 0 }]);
    let plan = sys.render(&worlds, &Vec3 { x: 0, y: 0, z: 0 });
    assert_eq!(plan.target, Vec3 { x: 0, y: 0, z: 0 });
    assert_eq!(plan.views[1].position, Vec3 { x: 5, y: 0, z: 0 });
}

#[test]
fn lod_regimes() {
    assert_eq!(level_of_detail(4_200, 1_000_000, MAJOR_LOD_DIVISOR), (4_200, true));
    assert_eq!(level_of_detail(4_200, 10_000_000, MAJOR_LOD_DIVISOR), (20_000, false));
    assert_eq!(level_of_detail(4_200, 2_100_000, MAJOR_LOD_DIVISOR), (4_200, true));
}

#[test]
fn lod_monotonicity() {
    let mut last = 0;
    for d in (0..100u64).map(|k| k * 123_457) {
        let (r, _) = level_of_detail(4_200, d, MAJOR_LOD_DIVISOR);
        assert!(r >= last);
        last = r;
    }
}

#[test]
fn minor_bodies_are_instanced() {
    let bodies = vec![
        body("Sun", BodyClass::Star, None, &elements(465_000, 0, 0, 0, 0)),
        body("Rock", BodyClass::Minor, Some(0), &elements(20, 250 * UNIT as u64, 1000, 0, 0)),
        body("Planet", BodyClass::Major, Some(0), &elements(4_200, 100 * UNIT as u64, 1000, 0, 0)),
    ];
    let sys = SolarSystem::from_bodies(bodies, 0, 0, false).unwrap();
    let locals = vec![Vec3 { x: 0, y: 0, z: 0 }, Vec3 { x: 250 * UNIT, y: 0, z: 0 }, Vec3 { x: 0, y: 0, z: 100 * UNIT }];
    let worlds = sys.world_positions(&locals);
    let plan = sys.render(&worlds, &Vec3 { x: 0, y: 0, z: 0 });
    assert_eq!(plan.instances.len(), 1);
    assert_eq!(plan.instances[0].position, Vec3 { x: 250 * UNIT, y: 0, z: 0 });
    // 250 units away with the 0.0005 floor: 0.125 units.
    assert_eq!(plan.instances[0].render_radius, 125_000);
    assert!(plan.views[1].instanced && !plan.views[2].instanced);
    // 100 units away with the 0.002 floor: 0.2 units, larger than the true radius.
    assert_eq!((plan.views[2].render_radius, plan.views[2].detailed), (200_000, false));
    // The star is seen from its centre: true radius, close-up regime.
    assert_eq!((plan.views[0].render_radius, plan.views[0].detailed), (465_000, true));
}

#[test]
fn trail_points_follow_parent_and_focus() {
    let mut sys = star_and_planet(1000);
    sys.trail_config = TrailConfig { samples_per_orbit: 4, cap: 10 };
    sys.extend_trail(1, &vec![Vec3 { x: 1, y: 2, z: 3 }], 0);
    sys.select_body(1);
    let worlds = vec![Vec3 { x: 10, y: 0, z: 0 }, Vec3 { x: 110, y: 0, z: 0 }];
    let target = worlds[1];
    assert_eq!(sys.trail_points(1, &worlds, &target), vec![Vec3 { x: -99, y: 2, z: 3 }]);
}

#[test]
fn nearer_body_hides_label() {
    let items = vec![
        ScreenBody { index: 0, screen_x: 100, screen_y: 100, radius_px: 50, depth: 10 },
        ScreenBody { index: 1, screen_x: 120, screen_y: 110, radius_px: 2, depth: 20 },
        ScreenBody { index: 2, screen_x: 400, screen_y: 100, radius_px: 2, depth: 30 },
    ];
    assert_eq!(label_visibility(&items), vec![true, false, true]);
}

#[test]
fn farther_body_does_not_hide_label() {
    let items = vec![
        ScreenBody { index: 0, screen_x: 100, screen_y: 100, radius_px: 50, depth: 40 },
        ScreenBody { index: 1, screen_x: 120, screen_y: 110, radius_px: 2, depth: 20 },
    ];
    assert_eq!(label_visibility(&items), vec![true, true]);
}

#[test]
fn off_screen_labels_are_hidden() {
    assert!(on_screen(0, 999_999, true));
    assert!(!on_screen(1_000_001, 0, true));
    assert!(!on_screen(0, -1_000_001, true));
    assert!(!on_screen(0, 0, false));
}

#[test]
fn camera_controls() {
    let mut sys = star_and_planet(1000);
    let d = sys.camera_distance;
    sys.handle_input(CameraKey::ZoomOut);
    assert_eq!(sys.camera_distance, d + 1_000_000);
    sys.handle_wheel(1);
    assert_eq!(sys.camera_distance, MIN_ZOOM);
    sys.handle_wheel(u64::MAX);
    assert_eq!(sys.camera_distance, MAX_ZOOM);
    sys.handle_mouse_down(0, 0);
    sys.handle_mouse_move(0, 10_000);
    assert_eq!(sys.camera_pitch, PITCH_LIMIT);
    sys.handle_mouse_up();
    sys.handle_mouse_move(0, -10_000);
    assert_eq!(sys.camera_pitch, PITCH_LIMIT);
    let yaw = sys.camera_yaw;
    sys.handle_input(CameraKey::TurnRight);
    sys.handle_input(CameraKey::TurnLeft);
    assert_eq!(sys.camera_yaw, yaw);
}

#[test]
fn temperature_display() {
    let mut sys = star_and_planet(1000);
    assert_eq!(sys.display_temperature(288), 1_485);
    sys.toggle_temperature_unit();
    assert_eq!(sys.display_temperature(288), 28_800);
}

#[test]
fn period_and_speed() {
    assert_eq!(orbital_period_seconds((TURN / 100) as i64), Some(100));
    assert_eq!(orbital_period_seconds(-((TURN / 100) as i64)), Some(100));
    assert_eq!(orbital_period_seconds(0), None);
    // On a circle (r = a) the vis-viva speed is the mean speed n·a.
    let n = TURN_PER_RADIAN as i64;
    assert_eq!(orbital_speed(n, 100 * UNIT as u64, 100 * UNIT as u64), 100 * UNIT as u128);
    assert_eq!(orbital_speed(n, 0, 5), 0);
    assert_eq!(orbital_speed(n, 5, 0), 0);
}

#[test]
fn unit_conversions() {
    assert_eq!(millidegrees(90_000), TURN / 4);
    assert_eq!(millidegrees(-90_000), 3 * TURN / 4);
    assert_eq!(add_angle(TURN - 1, 2), 1);
    assert_eq!(add_angle(0, -1), TURN - 1);
    assert_eq!(isqrt(99), 9);
    assert_eq!(isqrt(100), 10);
    assert_eq!(isqrt(u128::MAX), u64::MAX);
    assert_eq!(kepler_period(100_000_000), 365_256);
    assert_eq!(initial_phase(90_000, 0, 123), TURN / 4);
    // Half a period after the epoch, half a turn on.
    assert_eq!(initial_phase(0, 1_000, 43_200_000), TURN / 2);
    assert_eq!(initial_phase(0, 1_000, -43_200_000), TURN / 2);
}

#[test]
fn catalogue_system() {
    let sys = SolarSystem::new(false, 1_700_000_000_000_000);
    assert_eq!(sys.bodies.len(), CATALOG_SIZE);
    assert_eq!(sys.bodies[0].name, "Sun");
    assert_eq!(sys.bodies[3].name, "Earth");
    assert_eq!(sys.bodies[4].parent, Some(3));
    assert_eq!(sys.bodies[9].name, "Asteroid 0");
    assert_eq!(sys.bodies[1508].name, "Asteroid 1499");
    assert_eq!(sys.bodies[1509].name, "Jupiter");
    assert_eq!(sys.bodies[CATALOG_SIZE - 1].name, "Oort Object 9999");
    assert_eq!(sys.focused_body_index, Some(3));
    for (i, b) in sys.bodies.iter().enumerate() {
        if let Some(p) = b.parent {
            assert!(p < i);
        }
        if b.name.starts_with("Asteroid") {
            assert!(b.class == BodyClass::Minor);
            assert!((220 * UNIT as u64..320 * UNIT as u64).contains(&b.orbit_radius));
        }
        if b.name.starts_with("Oort") {
            assert!((200_000 * UNIT as u64..=5_000_000 * UNIT as u64).contains(&b.orbit_radius));
        }
    }
    assert!(!sys.bodies[3].is_frozen);
    assert_eq!(sys.bodies[3].temperature, 288);
}

#[test]
fn black_hole_system_is_frozen() {
    let sys = SolarSystem::new(true, 1_700_000_000_000_000);
    assert_eq!(sys.bodies[0].name, "Black Hole");
    assert!(!sys.bodies[0].is_frozen);
    assert!(sys.bodies[3].is_frozen);
    assert_eq!(sys.bodies[3].temperature, 30);
    assert_eq!(sys.bodies[3].textures.cloud, None);
}

#[test]
fn block_colours_and_slots() {
    assert_eq!(BlockType::Grass.color(), Rgb { r: 200, g: 800, b: 200 });
    assert_eq!(BlockType::Bedrock.color(), Rgb { r: 100, g: 100, b: 100 });
    assert_eq!(BlockType::from_slot(4), Some(BlockType::Wood));
    assert_eq!(BlockType::from_slot(6), None);
    assert_eq!(BlockType::Leaves.slot(), 5);
}

#[test]
fn still_system_keeps_world_positions() {
    let bodies = vec![
        body("Sun", BodyClass::Star, None, &elements(465_000, 0, 0, 0, 0)),
        body("Planet", BodyClass::Major, Some(0), &elements(4_200, 100 * UNIT as u64, 0, TURN / 3, 100_000)),
        body("Moon", BodyClass::Major, Some(1), &elements(1_100, 257_000, 0, TURN / 5, 50_000)),
    ];
    let mut sys = SolarSystem::from_bodies(bodies, 0, 0, false).unwrap();
    sys.set_time_scale(1_000_000_000);
    let locals = |s: &SolarSystem| -> Vec<Vec3> { s.bodies.iter().map(|b| local_offset(b, b.orbit_angle)).collect() };
    let before = sys.world_positions(&locals(&sys));
    for k in 1..10 {
        sys.update(k * 100_000);
    }
    assert_eq!(sys.world_positions(&locals(&sys)), before);
}

#[test]
fn random_populations_spread_out() {
    let sys = SolarSystem::new(false, 0);
    let first = sys.bodies[9].orbit_radius;
    assert!(sys.bodies[9..1509].iter().any(|b| b.orbit_radius != first));
    assert!(sys.bodies[9..1509].iter().all(|b| b.radius >= 10 && b.radius < 50));
    assert!(sys.bodies[1524..3524].iter().all(|b| b.class == BodyClass::Minor && b.parent == Some(0)));
}

#[test]
fn half_speed_time_scale() {
    // Rate 0.5: a 0.1 s tick adds 0.05 s of simulated time.
    let mut c = SimClock::new(0, 0);
    c.set_time_scale(500);
    assert_eq!(c.tick(100_000), 50_000);
    assert_eq!(c.current_time_us, 50_000);
    // Rounded down, also when running backwards.
    c.set_time_scale(-1);
    assert_eq!(c.tick(100_001), -1);
}

#[test]
fn black_hole_drawn_large_and_unlit() {
    let sys = SolarSystem::new(true, 0);
    let locals: Vec<Vec3> = sys.bodies.iter().map(|b| local_offset(b, b.orbit_angle)).collect();
    let worlds = sys.world_positions(&locals);
    let plan = sys.render(&worlds, &Vec3 { x: 0, y: 0, z: 1_000_000 });
    assert_eq!(plan.views[0].render_radius, 300_000);
    assert!(!plan.views[0].lit);
    let normal = SolarSystem::new(false, 0);
    let plan = normal.render(&worlds, &Vec3 { x: 0, y: 0, z: 1_000_000 });
    // The Earth is the focus, one unit from the camera: close-up, lit, true radius.
    assert_eq!((plan.views[3].render_radius, plan.views[3].detailed, plan.views[3].lit), (4_200, true, true));
}

#[test]
fn oort_member_from_draws() {
    let d = MemberDraws {
        angle: 90_000,
        spread: 500_000,
        size: 100,
        rotation_period: 10_000,
        axial_tilt: 0,
        inclination: 90_000,
        node: 0,
        periapsis: 180_000,
        eccentricity: 250_000,
    };
    let b = population_member_from(Population::OortCloud, 7, &d);
    assert_eq!(b.name, "Oort Object 7");
    // 2000 AU + 48000 AU · 0.25 = 14000 AU = 1.4 · 10^6 units.
    assert_eq!(b.orbit_radius, 1_400_000_000_000);
    assert_eq!(b.orbit_angle, TURN / 4);
    assert_eq!(b.orbit_inclination, 0);
    assert_eq!(b.argument_of_periapsis, TURN / 2);
    assert_eq!(b.eccentricity, TRIG_ONE / 4);
    assert_eq!(b.temperature, 10);
    assert!(b.trail.is_empty() && b.class == BodyClass::Minor && b.parent == Some(0));
}

#[test]
fn catalogue_names_are_distinct() {
    let sys = SolarSystem::new(false, 0);
    let mut names: Vec<&str> = sys.bodies.iter().map(|b| b.name.as_str()).collect();
    names.sort();
    names.dedup();
    assert_eq!(names.len(), CATALOG_SIZE);
    assert_eq!(sys.clock.time_scale, 1000);
    assert_eq!(sys.trail_config, TrailConfig { samples_per_orbit: 1000, cap: 1000 });
    assert!(sys.bodies.iter().all(|b| b.trail.is_empty() && b.last_trail_angle == b.orbit_angle));
}

#[test]
fn far_orbit_is_accepted() {
    // 10^7 units, the largest orbit the simulation spans.
    let bodies = vec![
        body("Sun", BodyClass::Star, None, &elements(1, 0, 0, 0, 0)),
        body("Far", BodyClass::Major, Some(0), &elements(1, 10_000_000 * UNIT as u64, 1000, 0, 0)),
    ];
    assert!(SolarSystem::from_bodies(bodies, 0, 0, false).is_ok());
}
