//! Camera-relative projection stage, level-of-detail policy and instancing, and the
//! label occlusion pass.
use vstd::prelude::*;
use crate::units::{WORLD_LIMIT, Vec3, within, triple, diff_of, norm_sq};
use crate::body::Rgb;

verus! {

/// Bound on the magnitude of every coordinate of the focus-relative camera position.
pub const CAMERA_LIMIT: i64 = 1_125_899_906_842_624;

/// Major bodies render no smaller than `distance / MAJOR_LOD_DIVISOR` (0.002 rad).
pub const MAJOR_LOD_DIVISOR: u64 = 500;

/// Bulk-population bodies render no smaller than `distance / MINOR_LOD_DIVISOR` (0.0005 rad).
pub const MINOR_LOD_DIVISOR: u64 = 2000;

/// Bound on the magnitude of screen-space coordinates and radii.
pub const SCREEN_LIMIT: i64 = 1_099_511_627_776;

/// The focus position: the focused body's absolute position, or the origin when
/// there is no focus or the index is out of range.
pub open spec fn target_of(worlds: Seq<Vec3>, focus: Option<usize>) -> Vec3 {
    match focus {
        Some(f) => if f < worlds.len() {
            worlds[f as int]
        } else {
            Vec3 { x: 0, y: 0, z: 0 }
        },
        None => Vec3 { x: 0, y: 0, z: 0 },
    }
}

/// The focus position for `focus` among the absolute positions `worlds`.
pub fn focus_target(worlds: &Vec<Vec3>, focus: Option<usize>) -> (r: Vec3)
    ensures
        r == target_of(worlds@, focus),
{
    match focus {
        Some(f) => if f < worlds.len() {
            worlds[f]
        } else {
            Vec3::zero()
        },
        None => Vec3::zero(),
    }
}

/// Subtracts the focus position from every absolute position.
pub fn recentre(worlds: &Vec<Vec3>, target: &Vec3) -> (r: Vec<Vec3>)
    requires
        forall|i: int| 0 <= i < worlds.len() ==> within(#[trigger] worlds@[i], WORLD_LIMIT as int),
        within(*target, WORLD_LIMIT as int),
    ensures
        r.len() == worlds.len(),
        forall|i: int| 0 <= i < r.len() ==> triple(#[trigger] r@[i]) == diff_of(worlds@[i], *target),
        forall|i: int| 0 <= i < r.len() ==> within(#[trigger] r@[i], 2 * WORLD_LIMIT),
{
    let mut out: Vec<Vec3> = Vec::new();
    let mut i: usize = 0;
    while i < worlds.len()
        invariant
            i <= worlds.len(),
            forall|k: int| 0 <= k < worlds.len() ==> within(#[trigger] worlds@[k], WORLD_LIMIT as int),
            within(*target, WORLD_LIMIT as int),
            out.len() == i,
            forall|k: int| 0 <= k < i ==> triple(#[trigger] out@[k]) == diff_of(worlds@[k], *target),
            forall|k: int| 0 <= k < i ==> within(#[trigger] out@[k], 2 * WORLD_LIMIT),
        decreases worlds.len() - i,
    {
        out.push(worlds[i].sub(target));
        i += 1;
    }
    out
}

/// Focusing on a body puts it at the origin: with focus on body `f`, its
/// focus-relative position is exactly the zero vector.
pub proof fn lemma_focus_round_trip(worlds: Seq<Vec3>, f: usize)
    requires
        f < worlds.len(),
    ensures
        diff_of(worlds[f as int], target_of(worlds, Some(f))) == (0int, 0int, 0int),
{
}

/// Squared distance between a focus-relative position and the focus-relative camera.
pub fn camera_distance_sq(p: &Vec3, cam: &Vec3) -> (r: u128)
    requires
        within(*p, 2 * WORLD_LIMIT),
        within(*cam, CAMERA_LIMIT as int),
    ensures
        r == norm_sq(diff_of(*cam, *p)),
{
    let dx: i128 = cam.x as i128 - p.x as i128;
    let dy: i128 = cam.y as i128 - p.y as i128;
    let dz: i128 = cam.z as i128 - p.z as i128;
    assert(0 <= dx * dx <= 0x1100_0000_0000_0000_0000_0000_0000_0000) by (nonlinear_arith)
        requires
            -0x4100_0000_0000_0000 <= dx <= 0x4100_0000_0000_0000,
    ;
    assert(0 <= dy * dy <= 0x1100_0000_0000_0000_0000_0000_0000_0000) by (nonlinear_arith)
        requires
            -0x4100_0000_0000_0000 <= dy <= 0x4100_0000_0000_0000,
    ;
    assert(0 <= dz * dz <= 0x1100_0000_0000_0000_0000_0000_0000_0000) by (nonlinear_arith)
        requires
            -0x4100_0000_0000_0000 <= dz <= 0x4100_0000_0000_0000,
    ;
    (dx * dx + dy * dy + dz * dz) as u128
}

/// Render radius under the angular-size floor: the true radius when it is at least
/// `distance / divisor`, else that floor.
pub open spec fn render_radius_of(radius: int, distance: int, divisor: int) -> int {
    if distance / divisor > radius {
        distance / divisor
    } else {
        radius
    }
}

/// Whether the close-up (textured) regime applies.
pub open spec fn detailed_of(radius: int, distance: int, divisor: int) -> bool {
    !(distance / divisor > radius)
}

/// The level-of-detail choice for a body of the given radius at the given camera
/// distance: the render radius, and whether the close-up regime applies (true radius,
/// full texture detail) rather than the distant-dot regime (flat colour, floor radius).
pub fn level_of_detail(radius: u64, distance: u64, divisor: u64) -> (r: (u64, bool))
    requires
        divisor > 0,
    ensures
        r.0 == render_radius_of(radius as int, distance as int, divisor as int),
        r.1 == detailed_of(radius as int, distance as int, divisor as int),
{
    let floor = distance / divisor;
    if floor > radius {
        (floor, false)
    } else {
        (radius, true)
    }
}

/// Moving the camera away never shrinks a body: for a fixed radius and divisor the
/// render radius does not decrease as the camera distance grows.
pub proof fn lemma_lod_monotone(radius: nat, d1: nat, d2: nat, divisor: nat)
    requires
        d1 <= d2,
        divisor > 0,
    ensures
        render_radius_of(radius as int, d1 as int, divisor as int)
            <= render_radius_of(radius as int, d2 as int, divisor as int),
{
    vstd::arithmetic::div_mod::lemma_div_is_ordered(d1 as int, d2 as int, divisor as int);
}

/// How one body is drawn in a frame.
#[derive(Clone, Copy, Debug, PartialEq, Eq, Structural)]
pub struct BodyView {
    /// Focus-relative position.
    pub position: Vec3,
    /// Camera distance.
    pub distance: u64,
    pub render_radius: u64,
    /// Close-up regime: textures, clouds, rings and night side apply.
    pub detailed: bool,
    /// Drawn through the shared instanced batch rather than individually.
    pub instanced: bool,
    /// Shaded by the light at the central body.
    pub lit: bool,
}

/// One record of the shared instanced batch.
#[derive(Clone, Copy, Debug, PartialEq, Eq, Structural)]
pub struct Instance {
    pub position: Vec3,
    pub render_radius: u64,
    pub color: Rgb,
}

/// A body's centre in screen space, as the label pass sees it.
#[derive(Clone, Copy, Debug, PartialEq, Eq, Structural)]
pub struct ScreenBody {
    pub index: usize,
    pub screen_x: i64,
    pub screen_y: i64,
    pub radius_px: i64,
    /// Camera distance; smaller is nearer.
    pub depth: u64,
}

impl ScreenBody {
    pub open spec fn wf(&self) -> bool {
        &&& -SCREEN_LIMIT <= self.screen_x <= SCREEN_LIMIT
        &&& -SCREEN_LIMIT <= self.screen_y <= SCREEN_LIMIT
        &&& -SCREEN_LIMIT <= self.radius_px <= SCREEN_LIMIT
    }
}

/// `o` is another body, nearer the camera, whose disc covers `s`'s centre.
pub open spec fn occludes(o: ScreenBody, s: ScreenBody) -> bool {
    &&& o.index != s.index
    &&& o.depth < s.depth
    &&& (s.screen_x - o.screen_x) * (s.screen_x - o.screen_x) + (s.screen_y - o.screen_y) * (
    s.screen_y - o.screen_y) < o.radius_px * o.radius_px
}

/// A label is shown unless some other listed body occludes its body's centre.
pub open spec fn label_shown(items: Seq<ScreenBody>, i: int) -> bool {
    !exists|j: int| 0 <= j < items.len() && occludes(#[trigger] items[j], items[i])
}

/// A projected centre is on screen: in front of the camera, with normalised
/// coordinates (in millionths) within `[-1, 1]` on both axes.
pub open spec fn on_screen_spec(ndc_x: int, ndc_y: int, in_front: bool) -> bool {
    in_front && -1_000_000 <= ndc_x <= 1_000_000 && -1_000_000 <= ndc_y <= 1_000_000
}

/// Whether a label can show at all: off-screen or behind-the-camera bodies never do.
pub fn on_screen(ndc_x: i64, ndc_y: i64, in_front: bool) -> (r: bool)
    ensures
        r == on_screen_spec(ndc_x as int, ndc_y as int, in_front),
{
    in_front && -1_000_000 <= ndc_x && ndc_x <= 1_000_000 && -1_000_000 <= ndc_y && ndc_y <= 1_000_000
}

fn occludes_exec(o: &ScreenBody, s: &ScreenBody) -> (r: bool)
    requires
        o.wf(),
        s.wf(),
    ensures
        r == occludes(*o, *s),
{
    if o.index == s.index || o.depth >= s.depth {
        return false;
    }
    let dx: i128 = s.screen_x as i128 - o.screen_x as i128;
    let dy: i128 = s.screen_y as i128 - o.screen_y as i128;
    let rr: i128 = o.radius_px as i128;
    assert(0 <= dx * dx <= 0x10_0000_0000_0000_0000_0000) by (nonlinear_arith)
        requires
            -0x200_0000_0000 <= dx <= 0x200_0000_0000,
    ;
    assert(0 <= dy * dy <= 0x10_0000_0000_0000_0000_0000) by (nonlinear_arith)
        requires
            -0x200_0000_0000 <= dy <= 0x200_0000_0000,
    ;
    assert(0 <= rr * rr <= 0x10_0000_0000_0000_0000_0000) by (nonlinear_arith)
        requires
            -0x200_0000_0000 <= rr <= 0x200_0000_0000,
    ;
    dx * dx + dy * dy < rr * rr
}

/// The label occlusion pass: for each listed body, whether its label is shown.
pub fn label_visibility(items: &Vec<ScreenBody>) -> (r: Vec<bool>)
    requires
        forall|i: int| 0 <= i < items.len() ==> (#[trigger] items@[i]).wf(),
    ensures
        r.len() == items.len(),
        forall|i: int| 0 <= i < r.len() ==> #[trigger] r@[i] == label_shown(items@, i),
{
    let mut out: Vec<bool> = Vec::new();
    let mut i: usize = 0;
    while i < items.len()
        invariant
            i <= items.len(),
            forall|k: int| 0 <= k < items.len() ==> (#[trigger] items@[k]).wf(),
            out.len() == i,
            forall|k: int| 0 <= k < i ==> #[trigger] out@[k] == label_shown(items@, k),
        decreases items.len() - i,
    {
        let mut hidden = false;
        let mut j: usize = 0;
        while j < items.len()
            invariant
                j <= items.len(),
                i < items.len(),
                forall|k: int| 0 <= k < items.len() ==> (#[trigger] items@[k]).wf(),
                hidden == exists|m: int| 0 <= m < j && occludes(#[trigger] items@[m], items@[i as int]),
            decreases items.len() - j,
        {
            if occludes_exec(&items[j], &items[i]) {
                hidden = true;
            }
            j += 1;
        }
        out.push(!hidden);
        i += 1;
    }
    out
}

} // verus!
