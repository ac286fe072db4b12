//! The camera model: projection state, cursor-ray construction and
//! wheel zoom.
//!
//! Cursor coordinates given to this module are physical pixels in
//! fixed-point. A cast first moves the cursor into the camera's
//! viewport, then unprojects it: an orthographic camera offsets the ray
//! origin sideways and fires along its forward axis, a perspective
//! camera fires from its translation through the cursor's pixel at the
//! focal plane. Directions are not normalized; the pick cutoff measures
//! true distance, which does not depend on the direction's length.

use vstd::prelude::*;
use crate::fixed::{COORD_LIMIT, FIX_ONE, in_range, tdiv, clamp_spec, clamp_i64, mul_wide,
    mul_wide3, mul_div, div_trunc_wide, lemma_tdiv_bound};
use crate::math::{Vec2I, Vec3I, Transform, transform_wf, rot_apply, rot_apply_spec,
    vec2_in_range, vec3_vol_range, vec3_dir_range};

verus! {

/// The depth of the drag reference plane: dragged objects slide on the
/// world plane `z == REF_DEPTH` (two world units).
pub const REF_DEPTH: i64 = 2_000;

/// Zoom configuration, owned by the interaction core.
#[derive(Clone, Copy, Debug, PartialEq, Eq, Structural)]
pub struct CameraSettings {
    /// The height of the viewport in world units when the orthographic
    /// camera's scale is one.
    pub orthographic_viewport_height: i64,
    /// Lower end of the zoom clamp range, shared by orthographic scale
    /// and perspective field of view.
    pub zoom_min: i64,
    /// Upper end of the zoom clamp range.
    pub zoom_max: i64,
    /// Wheel deltas are scaled by this factor before they zoom.
    pub orthographic_zoom_speed: i64,
}

impl Default for CameraSettings {
    /// The interaction core's stock tuning: a five-unit reference
    /// viewport, zoom clamped to `[0.1, 3000]` and a hand-tuned wheel
    /// speed of `0.2`.
    fn default() -> (s: CameraSettings)
        ensures
            s == (CameraSettings {
                orthographic_viewport_height: 5_000i64,
                zoom_min: 100i64,
                zoom_max: 3_000_000i64,
                orthographic_zoom_speed: 200i64,
            }),
            settings_wf(s),
    {
        CameraSettings {
            orthographic_viewport_height: 5_000,
            zoom_min: 100,
            zoom_max: 3_000_000,
            orthographic_zoom_speed: 200,
        }
    }
}

pub open spec fn settings_wf(s: CameraSettings) -> bool {
    &&& 0 < s.orthographic_viewport_height <= COORD_LIMIT as int
    &&& 0 < s.zoom_min <= s.zoom_max
    &&& s.zoom_max <= COORD_LIMIT as int
    &&& 0 <= s.orthographic_zoom_speed <= COORD_LIMIT as int
}

/// The projection kind of the active camera. Kinds beyond orthographic
/// and perspective exist in rendering substrates; they produce no ray
/// and ignore zoom, a documented no-op rather than a silent catch-all.
#[derive(Clone, Copy, Debug, PartialEq, Eq, Structural)]
pub enum Projection {
    /// `scale` is the zoomable orthographic scale.
    Orthographic { scale: i64 },
    /// `fov` is the zoomable field of view; `focal` is the focal length
    /// in fixed-point pixels that casting uses.
    Perspective { fov: i64, focal: i64 },
    Other,
}

pub open spec fn projection_wf(p: Projection) -> bool {
    match p {
        Projection::Orthographic { scale } => 0 < scale <= COORD_LIMIT as int,
        Projection::Perspective { fov, focal } => {
            &&& in_range(fov)
            &&& 0 < focal <= COORD_LIMIT as int
        },
        Projection::Other => true,
    }
}

/// The active camera: a viewport region of the drawable surface, a
/// projection, and a world placement.
#[derive(Clone, Copy, Debug, PartialEq, Eq, Structural)]
pub struct Camera {
    /// Physical-pixel origin of the camera's viewport in the surface.
    pub viewport_offset: Vec2I,
    /// Physical-pixel size of the viewport; both sides positive.
    pub viewport_size: Vec2I,
    pub projection: Projection,
    pub transform: Transform,
}

pub open spec fn camera_wf(c: Camera) -> bool {
    &&& vec2_in_range(c.viewport_offset)
    &&& 0 < c.viewport_size.x <= COORD_LIMIT as int
    &&& 0 < c.viewport_size.y <= COORD_LIMIT as int
    &&& projection_wf(c.projection)
    &&& transform_wf(c.transform)
}

/// A world-space ray: origin plus unnormalized direction.
#[derive(Clone, Copy, Debug, PartialEq, Eq, Structural)]
pub struct Ray {
    pub origin: Vec3I,
    pub dir: Vec3I,
}

pub open spec fn ray_wf(r: Ray) -> bool {
    &&& vec3_vol_range(r.origin)
    &&& vec3_dir_range(r.dir)
    &&& !(r.dir.x == 0 && r.dir.y == 0 && r.dir.z == 0)
}

/// World units per doubled viewport pixel for an orthographic camera,
/// applied to a doubled centered cursor offset `c2`.
pub open spec fn ortho_local(c2: int, h_ref: int, scale: int, h_px: int) -> int {
    tdiv(c2 * h_ref * scale, 2 * h_px * (FIX_ONE as int))
}

/// The ray cast from a physical cursor position through the camera.
/// `None` exactly when the cursor leaves the viewport, the projection
/// produces no ray, or the unprojection leaves the model's coordinate
/// range.
pub open spec fn cast_spec(cursor: Vec2I, cam: Camera, s: CameraSettings) -> Option<Ray> {
    let vx = cursor.x - cam.viewport_offset.x;
    let vy = cursor.y - cam.viewport_offset.y;
    if vx < 0 || vy < 0 || vx > cam.viewport_size.x || vy > cam.viewport_size.y {
        None
    } else {
        let cx2 = 2 * vx - cam.viewport_size.x;
        let cy2 = cam.viewport_size.y - 2 * vy;
        match cam.projection {
            Projection::Orthographic { scale } => {
                let lx = ortho_local(cx2, s.orthographic_viewport_height as int, scale as int,
                    cam.viewport_size.y as int);
                let ly = ortho_local(cy2, s.orthographic_viewport_height as int, scale as int,
                    cam.viewport_size.y as int);
                if lx < -(COORD_LIMIT as int) || lx > COORD_LIMIT as int
                    || ly < -(COORD_LIMIT as int) || ly > COORD_LIMIT as int {
                    None
                } else {
                    let off = rot_apply_spec(cam.transform.rotation,
                        Vec3I { x: lx as i64, y: ly as i64, z: 0 });
                    let origin = Vec3I {
                        x: (cam.transform.translation.x + off.x) as i64,
                        y: (cam.transform.translation.y + off.y) as i64,
                        z: (cam.transform.translation.z + off.z) as i64,
                    };
                    let dir = rot_apply_spec(cam.transform.rotation,
                        Vec3I { x: 0, y: 0, z: (-(FIX_ONE as int)) as i64 });
                    if dir.x == 0 && dir.y == 0 && dir.z == 0 {
                        None
                    } else {
                        Some(Ray { origin, dir })
                    }
                }
            },
            Projection::Perspective { fov, focal } => {
                let dir = rot_apply_spec(cam.transform.rotation,
                    Vec3I { x: cx2 as i64, y: cy2 as i64, z: (-2 * focal) as i64 });
                if dir.x == 0 && dir.y == 0 && dir.z == 0 {
                    None
                } else {
                    Some(Ray { origin: cam.transform.translation, dir })
                }
            },
            Projection::Other => None,
        }
    }
}

/// Build the camera ray for a physical cursor position.
pub fn ray_from_screenspace(cursor: Vec2I, cam: &Camera, s: &CameraSettings) -> (r: Option<Ray>)
    requires
        vec2_in_range(cursor),
        camera_wf(*cam),
        settings_wf(*s),
    ensures
        r == cast_spec(cursor, *cam, *s),
        r is Some ==> ray_wf(r.unwrap()),
{
    let vx: i64 = cursor.x - cam.viewport_offset.x;
    let vy: i64 = cursor.y - cam.viewport_offset.y;
    if vx < 0 || vy < 0 || vx > cam.viewport_size.x || vy > cam.viewport_size.y {
        return None;
    }
    let cx2: i64 = 2 * vx - cam.viewport_size.x;
    let cy2: i64 = cam.viewport_size.y - 2 * vy;
    match cam.projection {
        Projection::Orthographic { scale } => {
            let num_x: i128 = mul_wide3(cx2, s.orthographic_viewport_height, scale);
            let num_y: i128 = mul_wide3(cy2, s.orthographic_viewport_height, scale);
            let den: i128 = 2 * (cam.viewport_size.y as i128) * (FIX_ONE as i128);
            let lx128: i128 = div_trunc_wide(num_x, den);
            let ly128: i128 = div_trunc_wide(num_y, den);
            if lx128 < -(COORD_LIMIT as i128) || lx128 > COORD_LIMIT as i128
                || ly128 < -(COORD_LIMIT as i128) || ly128 > COORD_LIMIT as i128 {
                return None;
            }
            let local = Vec3I { x: lx128 as i64, y: ly128 as i64, z: 0 };
            let off = rot_apply(&cam.transform.rotation, &local);
            let origin = Vec3I {
                x: cam.transform.translation.x + off.x,
                y: cam.transform.translation.y + off.y,
                z: cam.transform.translation.z + off.z,
            };
            let fwd = Vec3I { x: 0, y: 0, z: -FIX_ONE };
            let dir = rot_apply(&cam.transform.rotation, &fwd);
            if dir.x == 0 && dir.y == 0 && dir.z == 0 {
                return None;
            }
            Some(Ray { origin, dir })
        },
        Projection::Perspective { fov: _, focal } => {
            let local = Vec3I { x: cx2, y: cy2, z: -2 * focal };
            let dir = rot_apply(&cam.transform.rotation, &local);
            if dir.x == 0 && dir.y == 0 && dir.z == 0 {
                return None;
            }
            Some(Ray { origin: cam.transform.translation, dir })
        },
        Projection::Other => None,
    }
}

/// The world point where the cursor ray meets the drag reference plane
/// `z == REF_DEPTH`; `None` when the ray runs parallel to the plane,
/// away from it, or meets it outside the model's coordinate range.
pub open spec fn screen_to_world_spec(cursor: Vec2I, cam: Camera, s: CameraSettings)
    -> Option<Vec3I> {
    match cast_spec(cursor, cam, s) {
        None => None,
        Some(ray) => plane_point_spec(ray),
    }
}

pub open spec fn plane_point_spec(ray: Ray) -> Option<Vec3I> {
    let num = (REF_DEPTH as int) - ray.origin.z;
    if ray.dir.z == 0 {
        None
    } else {
        let nn = if ray.dir.z > 0 { num } else { -num };
        let dd = if ray.dir.z > 0 { ray.dir.z as int } else { -(ray.dir.z as int) };
        if nn < 0 {
            None
        } else {
            let px = ray.origin.x + tdiv((ray.dir.x as int) * nn, dd);
            let py = ray.origin.y + tdiv((ray.dir.y as int) * nn, dd);
            let pz = ray.origin.z + tdiv((ray.dir.z as int) * nn, dd);
            if px < -4 * (COORD_LIMIT as int) || px > 4 * (COORD_LIMIT as int)
                || py < -4 * (COORD_LIMIT as int) || py > 4 * (COORD_LIMIT as int)
                || pz < -4 * (COORD_LIMIT as int) || pz > 4 * (COORD_LIMIT as int) {
                None
            } else {
                Some(Vec3I { x: px as i64, y: py as i64, z: pz as i64 })
            }
        }
    }
}

fn plane_point(ray: &Ray) -> (r: Option<Vec3I>)
    requires
        ray_wf(*ray),
    ensures
        r == plane_point_spec(*ray),
        r is Some ==> vec3_vol_range(r.unwrap()),
{
    if ray.dir.z == 0 {
        return None;
    }
    let num: i64 = REF_DEPTH - ray.origin.z;
    let nn: i64 = if ray.dir.z > 0 { num } else { -num };
    let dd: i64 = if ray.dir.z > 0 { ray.dir.z } else { -ray.dir.z };
    if nn < 0 {
        return None;
    }
    let tx: i128 = mul_wide(ray.dir.x, nn);
    let ty: i128 = mul_wide(ray.dir.y, nn);
    let tz: i128 = mul_wide(ray.dir.z, nn);
    let qx: i128 = div_trunc_wide(tx, dd as i128);
    let qy: i128 = div_trunc_wide(ty, dd as i128);
    let qz: i128 = div_trunc_wide(tz, dd as i128);
    let px: i128 = (ray.origin.x as i128) + qx;
    let py: i128 = (ray.origin.y as i128) + qy;
    let pz: i128 = (ray.origin.z as i128) + qz;
    let lim: i128 = 4 * (COORD_LIMIT as i128);
    if px < -lim || px > lim || py < -lim || py > lim || pz < -lim || pz > lim {
        return None;
    }
    Some(Vec3I { x: px as i64, y: py as i64, z: pz as i64 })
}

/// The world point on the drag plane under a physical cursor position.
pub fn screen_to_world(cursor: Vec2I, cam: &Camera, s: &CameraSettings) -> (r: Option<Vec3I>)
    requires
        vec2_in_range(cursor),
        camera_wf(*cam),
        settings_wf(*s),
    ensures
        r == screen_to_world_spec(cursor, *cam, *s),
        r is Some ==> vec3_vol_range(r.unwrap()),
{
    match ray_from_screenspace(cursor, cam, s) {
        None => None,
        Some(ray) => plane_point(&ray),
    }
}

/// The wheel delta scaled by the zoom speed, negated so that scrolling
/// up zooms in.
pub open spec fn zoom_delta_spec(wheel_y: int, s: CameraSettings) -> int {
    tdiv(-wheel_y * s.orthographic_zoom_speed, FIX_ONE as int)
}

/// Orthographic zoom is multiplicative: one plus the delta, then
/// clamped into the configured range.
pub open spec fn zoom_ortho_spec(scale: int, wheel_y: int, s: CameraSettings) -> int {
    clamp_spec(tdiv(scale * ((FIX_ONE as int) + zoom_delta_spec(wheel_y, s)), FIX_ONE as int),
        s.zoom_min as int, s.zoom_max as int)
}

/// Perspective zoom is additive on the field of view, clamped into the
/// same range.
pub open spec fn zoom_persp_spec(fov: int, wheel_y: int, s: CameraSettings) -> int {
    clamp_spec(fov + zoom_delta_spec(wheel_y, s), s.zoom_min as int, s.zoom_max as int)
}

/// Apply one tick's accumulated vertical wheel delta to the projection.
/// Orthographic scale and perspective field of view both land inside
/// `[zoom_min, zoom_max]`; other projections ignore zoom.
pub fn apply_zoom(proj: &mut Projection, s: &CameraSettings, wheel_y: i64)
    requires
        projection_wf(*old(proj)),
        settings_wf(*s),
        in_range(wheel_y),
    ensures
        projection_wf(*final(proj)),
        match *old(proj) {
            Projection::Orthographic { scale } => *final(proj) == (Projection::Orthographic {
                scale: zoom_ortho_spec(scale as int, wheel_y as int, *s) as i64,
            }),
            Projection::Perspective { fov, focal } => *final(proj) == (Projection::Perspective {
                fov: zoom_persp_spec(fov as int, wheel_y as int, *s) as i64,
                focal,
            }),
            Projection::Other => *final(proj) == *old(proj),
        },
{
    let delta: i64 = mul_div_checked_delta(wheel_y, s.orthographic_zoom_speed);
    match *proj {
        Projection::Orthographic { scale } => {
            let mult: i64 = FIX_ONE + delta;
            proof {
                assert(-2_000_000_000_000_000_000_000int <= (scale as int) * (mult as int)
                    <= 2_000_000_000_000_000_000_000int) by (nonlinear_arith)
                    requires
                        0 < scale as int <= 100_000_000int,
                        -20_000_000_000_000int <= mult as int <= 20_000_000_000_000int;
                lemma_tdiv_bound((scale as int) * (mult as int), FIX_ONE as int,
                    2_000_000_000_000_000_000_000int);
            }
            let scaled: i64 = mul_div(scale, mult, FIX_ONE);
            let clamped: i64 = clamp_i64(scaled, s.zoom_min, s.zoom_max);
            *proj = Projection::Orthographic { scale: clamped };
        },
        Projection::Perspective { fov, focal } => {
            let adjusted: i64 = fov + delta;
            let clamped: i64 = clamp_i64(adjusted, s.zoom_min, s.zoom_max);
            *proj = Projection::Perspective { fov: clamped, focal };
        },
        Projection::Other => {},
    }
}

/// Zoom never escapes the configured clamp range: one wheel step lands
/// the orthographic scale and the perspective field of view inside
/// `[zoom_min, zoom_max]`, so no sequence of wheel deltas in any
/// direction can push either outside it.
pub proof fn lemma_zoom_clamped(v: int, wheel_y: int, s: CameraSettings)
    requires
        s.zoom_min <= s.zoom_max,
    ensures
        s.zoom_min <= zoom_ortho_spec(v, wheel_y, s) <= s.zoom_max,
        s.zoom_min <= zoom_persp_spec(v, wheel_y, s) <= s.zoom_max,
{
}

/// `zoom_delta_spec` as executable code; the intermediate product fits
/// because both factors are in range.
fn mul_div_checked_delta(wheel_y: i64, speed: i64) -> (r: i64)
    requires
        in_range(wheel_y),
        0 <= speed <= COORD_LIMIT as int,
    ensures
        r as int == tdiv(-(wheel_y as int) * (speed as int), FIX_ONE as int),
        -10_000_000_000_000 <= r as int <= 10_000_000_000_000,
{
    proof {
        assert(-10_000_000_000_000_000int <= -(wheel_y as int) * (speed as int)
            <= 10_000_000_000_000_000int) by (nonlinear_arith)
            requires
                -100_000_000int <= wheel_y as int <= 100_000_000int,
                0 <= speed as int <= 100_000_000int;
        lemma_tdiv_bound(-(wheel_y as int) * (speed as int), FIX_ONE as int,
            10_000_000_000_000_000int);
        assert(10_000_000_000_000_000int / 1000int == 10_000_000_000_000int);
    }
    mul_div(-wheel_y, speed, FIX_ONE)
}

} // verus!
