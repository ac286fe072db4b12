//! The interaction state machine: per-object hover / selection / drag
//! flags, the cached bounding volumes, the cursor, the camera, and the
//! fixed per-tick pipeline that transitions them.
//!
//! One tick runs, in order: volume refresh, hover resolution, drag
//! start, drag finish, drag move, select, zoom. A stage whose
//! triggering input is absent is a no-op; a stage missing a required
//! lookup — no camera, or no castable ray for the cursor — degrades to
//! a no-op for the tick rather than ending the pipeline.

use vstd::prelude::*;
use crate::fixed::{COORD_LIMIT, FIX_ONE, in_range, tdiv, clamp_spec, clamp_i64, mul_div,
    lemma_tdiv_bound};
use crate::math::{Vec2I, Vec3I, Transform, transform_wf, Aabb, CurrentVolume, aabb_of_box,
    aabb_in_range, box_aabb, vec2_in_range};
use crate::camera::{Camera, CameraSettings, Projection, Ray, camera_wf, settings_wf,
    cast_spec, ray_from_screenspace, screen_to_world, screen_to_world_spec,
    zoom_ortho_spec, zoom_persp_spec, apply_zoom};
use crate::pick::{ray_hits, ray_aabb_hit};
use crate::keyboard::KeyboardInput;

verus! {

/// The shape of a pickable object: an axis-aligned box given by its
/// half extents.
#[derive(Clone, Copy, Debug, PartialEq, Eq, Structural)]
pub enum Shape {
    Box { half: Vec3I },
}

pub open spec fn shape_half(s: Shape) -> Vec3I {
    match s {
        Shape::Box { half } => half,
    }
}

pub open spec fn shape_wf(s: Shape) -> bool {
    &&& 0 <= shape_half(s).x <= COORD_LIMIT as int
    &&& 0 <= shape_half(s).y <= COORD_LIMIT as int
    &&& 0 <= shape_half(s).z <= COORD_LIMIT as int
}

/// One pickable object: its shape, placement, cached world volume and
/// interaction flags. `stale` records that shape or transform changed
/// after the last volume recompute; `drag` holds the anchor cursor
/// position while the object is dragged.
#[derive(Clone, Copy, Debug, PartialEq, Eq, Structural)]
pub struct Pickable {
    pub id: u64,
    pub shape: Shape,
    pub transform: Transform,
    pub volume: CurrentVolume,
    pub stale: bool,
    pub hovered: bool,
    pub selected: bool,
    pub drag: Option<Vec2I>,
}

/// Well-formedness of one object. A non-stale cached volume is exactly
/// the volume of the current shape under the current transform: the
/// cache is never left dangling across a completed tick.
pub open spec fn pickable_wf(p: Pickable) -> bool {
    &&& shape_wf(p.shape)
    &&& transform_wf(p.transform)
    &&& aabb_in_range(p.volume.0)
    &&& p.volume.0.min.x <= p.volume.0.max.x
    &&& p.volume.0.min.y <= p.volume.0.max.y
    &&& p.volume.0.min.z <= p.volume.0.max.z
    &&& !p.stale ==> p.volume.0 == aabb_of_box(shape_half(p.shape), p.transform)
    &&& match p.drag {
        Some(a) => vec2_in_range(a),
        None => true,
    }
}

/// The single-slot mailbox between the foreign event callbacks and the
/// tick: at most the latest event of each kind is kept (last write
/// wins); wheel deltas accumulate, saturating at the coordinate limit.
#[derive(Clone, Copy, Debug, PartialEq, Eq, Structural)]
pub struct Mailbox {
    pub mouse_move: Option<Vec2I>,
    pub mouse_pressed: bool,
    pub mouse_released: bool,
    pub wheel_y: i64,
    pub key: Option<KeyboardInput>,
}

pub open spec fn mailbox_wf(m: Mailbox) -> bool {
    &&& match m.mouse_move {
        Some(v) => vec2_in_range(v),
        None => true,
    }
    &&& in_range(m.wheel_y)
}

pub open spec fn empty_mailbox() -> Mailbox {
    Mailbox {
        mouse_move: None,
        mouse_pressed: false,
        mouse_released: false,
        wheel_y: 0,
        key: None,
    }
}

/// The snapshot of inputs one tick consumes.
#[derive(Clone, Copy, Debug, PartialEq, Eq, Structural)]
pub struct TickInput {
    pub cursor_moved: Option<Vec2I>,
    pub mouse_pressed: bool,
    pub mouse_released: bool,
    pub wheel_y: i64,
}

pub open spec fn tick_input_wf(i: TickInput) -> bool {
    &&& match i.cursor_moved {
        Some(v) => vec2_in_range(v),
        None => true,
    }
    &&& in_range(i.wheel_y)
}

/// The worker-side interaction pipeline state.
pub struct WorkerApp {
    pub objects: Vec<Pickable>,
    pub camera: Option<Camera>,
    pub settings: CameraSettings,
    /// Last known cursor position, physical pixels; persists across
    /// ticks.
    pub cursor: Vec2I,
    /// Logical-to-physical pixel scale, fixed-point.
    pub scale_factor: i64,
    /// The render surface finished initializing.
    pub window_ready: bool,
    pub exit_requested: bool,
    pub mailbox: Mailbox,
}

pub open spec fn app_wf(a: WorkerApp) -> bool {
    &&& forall |i: int| 0 <= i < a.objects@.len() ==> pickable_wf(#[trigger] a.objects@[i])
    &&& match a.camera {
        Some(c) => camera_wf(c),
        None => true,
    }
    &&& settings_wf(a.settings)
    &&& vec2_in_range(a.cursor)
    &&& 0 < a.scale_factor <= COORD_LIMIT as int
    &&& mailbox_wf(a.mailbox)
}

// ---------------------------------------------------------------
// Per-object stage transitions, as spec functions.
// ---------------------------------------------------------------

/// Volume refresh: a stale object gets the volume of its current shape
/// and transform; a fresh one is untouched.
pub open spec fn refresh_spec(p: Pickable) -> Pickable {
    if p.stale {
        Pickable {
            id: p.id,
            shape: p.shape,
            transform: p.transform,
            volume: CurrentVolume(aabb_of_box(shape_half(p.shape), p.transform)),
            stale: false,
            hovered: p.hovered,
            selected: p.selected,
            drag: p.drag,
        }
    } else {
        p
    }
}

/// Hover marking: the flag becomes exactly "the tick's ray hits the
/// cached volume", whatever it was before.
pub open spec fn hover_mark_spec(p: Pickable, ray: Ray) -> Pickable {
    Pickable {
        id: p.id,
        shape: p.shape,
        transform: p.transform,
        volume: p.volume,
        stale: p.stale,
        hovered: ray_hits(ray.origin, ray.dir, p.volume.0),
        selected: p.selected,
        drag: p.drag,
    }
}

/// Drag start: every hovered object not already dragged is anchored at
/// the current cursor position.
pub open spec fn drag_start_spec(p: Pickable, cursor: Vec2I) -> Pickable {
    if p.hovered && p.drag is None {
        Pickable {
            id: p.id,
            shape: p.shape,
            transform: p.transform,
            volume: p.volume,
            stale: p.stale,
            hovered: p.hovered,
            selected: p.selected,
            drag: Some(cursor),
        }
    } else {
        p
    }
}

/// Drag finish: the drag tag is removed unconditionally.
pub open spec fn drag_finish_spec(p: Pickable) -> Pickable {
    Pickable {
        id: p.id,
        shape: p.shape,
        transform: p.transform,
        volume: p.volume,
        stale: p.stale,
        hovered: p.hovered,
        selected: p.selected,
        drag: None,
    }
}

/// A translation moved by a world-space delta, each coordinate held
/// inside the coordinate limit.
pub open spec fn translate_clamped(t: Vec3I, cur: Vec3I, start: Vec3I) -> Vec3I {
    Vec3I {
        x: clamp_spec(t.x + cur.x - start.x, -(COORD_LIMIT as int), COORD_LIMIT as int) as i64,
        y: clamp_spec(t.y + cur.y - start.y, -(COORD_LIMIT as int), COORD_LIMIT as int) as i64,
        z: clamp_spec(t.z + cur.z - start.z, -(COORD_LIMIT as int), COORD_LIMIT as int) as i64,
    }
}

/// Drag move: a dragged object is translated by the world-space delta
/// between the drag-plane points under the current cursor and under its
/// anchor, then re-anchored at the current cursor. An object whose
/// anchor or the cursor yields no plane point is left untouched.
pub open spec fn drag_move_spec(p: Pickable, cam: Camera, s: CameraSettings, pos: Vec2I)
    -> Pickable {
    match p.drag {
        None => p,
        Some(anchor) => match (screen_to_world_spec(pos, cam, s),
            screen_to_world_spec(anchor, cam, s)) {
            (Some(cur), Some(start)) => Pickable {
                id: p.id,
                shape: p.shape,
                transform: Transform {
                    translation: translate_clamped(p.transform.translation, cur, start),
                    rotation: p.transform.rotation,
                },
                volume: p.volume,
                stale: true,
                hovered: p.hovered,
                selected: p.selected,
                drag: Some(pos),
            },
            _ => p,
        },
    }
}

/// Select: the previous selection is fully cleared, then exactly the
/// hovered objects are selected.
pub open spec fn select_spec(p: Pickable) -> Pickable {
    Pickable {
        id: p.id,
        shape: p.shape,
        transform: p.transform,
        volume: p.volume,
        stale: p.stale,
        hovered: p.hovered,
        selected: p.hovered,
        drag: p.drag,
    }
}

/// The ids of the hovered objects, in object order.
pub open spec fn hovered_ids(s: Seq<Pickable>) -> Seq<u64>
    decreases s.len(),
{
    if s.len() == 0 {
        Seq::empty()
    } else {
        let rest = hovered_ids(s.drop_last());
        if s.last().hovered {
            rest.push(s.last().id)
        } else {
            rest
        }
    }
}

/// The reported pick list carries exactly the hovered ids: an id is in
/// the list of a hover resolution precisely when some hovered object
/// bears it.
pub proof fn lemma_hovered_ids_membership(s: Seq<Pickable>, id: u64)
    ensures
        hovered_ids(s).contains(id) <==> exists |i: int| 0 <= i < s.len()
            && (#[trigger] s[i]).hovered && s[i].id == id,
    decreases s.len(),
{
    if s.len() == 0 {
    } else {
        let rest = s.drop_last();
        lemma_hovered_ids_membership(rest, id);
        let ids = hovered_ids(s);
        if s.last().hovered {
            assert(ids == hovered_ids(rest).push(s.last().id));
            if hovered_ids(rest).contains(id) || s.last().id == id {
                assert(ids.contains(id)) by {
                    if s.last().id == id {
                        assert(ids[ids.len() - 1] == id);
                    } else {
                        let j = choose |j: int| 0 <= j < hovered_ids(rest).len()
                            && hovered_ids(rest)[j] == id;
                        assert(ids[j] == id);
                    }
                }
            }
            if ids.contains(id) {
                let j = choose |j: int| 0 <= j < ids.len() && ids[j] == id;
                if j < ids.len() - 1 {
                    assert(hovered_ids(rest)[j] == id);
                    assert(hovered_ids(rest).contains(id));
                } else {
                    assert(s.last().id == id);
                    assert(s[s.len() - 1].hovered && s[s.len() - 1].id == id);
                }
            }
        } else {
            assert(ids == hovered_ids(rest));
        }
        assert forall |i: int| 0 <= i < rest.len() && (#[trigger] rest[i]).hovered
            && rest[i].id == id implies s[i].hovered && s[i].id == id by {
            assert(rest[i] == s[i]);
        }
        assert forall |i: int| 0 <= i < s.len() - 1 && (#[trigger] s[i]).hovered
            && s[i].id == id implies rest[i].hovered && rest[i].id == id by {
            assert(rest[i] == s[i]);
        }
    }
}

/// With unique ids, an object the resolution missed is absent from
/// the reported pick list.
pub proof fn lemma_unhovered_id_absent(s: Seq<Pickable>, i: int)
    requires
        0 <= i < s.len(),
        !s[i].hovered,
        forall |j: int| 0 <= j < s.len() && j != i ==> (#[trigger] s[j]).id != s[i].id,
    ensures
        !hovered_ids(s).contains(s[i].id),
{
    lemma_hovered_ids_membership(s, s[i].id);
    if hovered_ids(s).contains(s[i].id) {
        let j = choose |j: int| 0 <= j < s.len() && (#[trigger] s[j]).hovered
            && s[j].id == s[i].id;
        assert(j != i);
        assert(false);
    }
}

/// The zoom stage on a projection value.
pub open spec fn zoom_proj_spec(p: Projection, wheel_y: int, s: CameraSettings) -> Projection {
    match p {
        Projection::Orthographic { scale } => Projection::Orthographic {
            scale: zoom_ortho_spec(scale as int, wheel_y, s) as i64,
        },
        Projection::Perspective { fov, focal } => Projection::Perspective {
            fov: zoom_persp_spec(fov as int, wheel_y, s) as i64,
            focal,
        },
        Projection::Other => p,
    }
}

impl WorkerApp {
    /// A fresh pipeline context with no objects and no camera.
    pub fn new(scale_factor: i64) -> (a: WorkerApp)
        requires
            0 < scale_factor <= COORD_LIMIT as int,
        ensures
            app_wf(a),
            a.objects@.len() == 0,
            a.camera is None,
            a.settings == (CameraSettings {
                orthographic_viewport_height: 5_000i64,
                zoom_min: 100i64,
                zoom_max: 3_000_000i64,
                orthographic_zoom_speed: 200i64,
            }),
            a.cursor == (Vec2I { x: 0, y: 0 }),
            a.scale_factor == scale_factor,
            !a.window_ready,
            !a.exit_requested,
            a.mailbox == empty_mailbox(),
    {
        WorkerApp {
            objects: Vec::new(),
            camera: None,
            settings: Default::default(),
            cursor: Vec2I { x: 0, y: 0 },
            scale_factor,
            window_ready: false,
            exit_requested: false,
            mailbox: empty_mailbox_exec(),
        }
    }

    /// Volume refresh: recompute the cached volume of every object
    /// whose shape or transform changed since the last recompute, and
    /// only of those — an unchanged object keeps its volume
    /// bit-identical.
    pub fn update_aabbes(&mut self)
        requires
            app_wf(*old(self)),
        ensures
            app_wf(*final(self)),
            final(self).objects@.len() == old(self).objects@.len(),
            forall |i: int| 0 <= i < old(self).objects@.len()
                ==> final(self).objects@[i] == refresh_spec(#[trigger] old(self).objects@[i]),
            forall |i: int| 0 <= i < old(self).objects@.len() && !old(self).objects@[i].stale
                ==> final(self).objects@[i] == old(self).objects@[i],
            final(self).camera == old(self).camera,
            final(self).settings == old(self).settings,
            final(self).cursor == old(self).cursor,
            final(self).scale_factor == old(self).scale_factor,
            final(self).window_ready == old(self).window_ready,
            final(self).exit_requested == old(self).exit_requested,
            final(self).mailbox == old(self).mailbox,
    {
        let n: usize = self.objects.len();
        let mut i: usize = 0;
        while i < n
            invariant
                app_wf(*old(self)),
                n == old(self).objects@.len(),
                self.objects@.len() == n,
                i <= n,
                forall |j: int| 0 <= j < i
                    ==> self.objects@[j] == refresh_spec(#[trigger] old(self).objects@[j]),
                forall |j: int| i <= j < n ==> self.objects@[j] == old(self).objects@[j],
                forall |j: int| 0 <= j < n ==> pickable_wf(#[trigger] self.objects@[j]),
                self.camera == old(self).camera,
                self.settings == old(self).settings,
                self.cursor == old(self).cursor,
                self.scale_factor == old(self).scale_factor,
                self.window_ready == old(self).window_ready,
                self.exit_requested == old(self).exit_requested,
                self.mailbox == old(self).mailbox,
            decreases n - i,
        {
            let p = self.objects[i];
            if p.stale {
                let half = match p.shape {
                    Shape::Box { half } => half,
                };
                let vol = box_aabb(&half, &p.transform);
                let np = Pickable {
                    id: p.id,
                    shape: p.shape,
                    transform: p.transform,
                    volume: CurrentVolume(vol),
                    stale: false,
                    hovered: p.hovered,
                    selected: p.selected,
                    drag: p.drag,
                };
                self.objects.set(i, np);
            }
            i += 1;
        }
    }

    /// The cursor takes the position of the tick's last pointer move.
    pub fn position_system(&mut self, pos: Vec2I)
        requires
            app_wf(*old(self)),
            vec2_in_range(pos),
        ensures
            app_wf(*final(self)),
            *final(self) == (WorkerApp { cursor: pos, ..*old(self) }),
    {
        self.cursor = pos;
    }

    /// Drag start: anchor every hovered, not-yet-dragged object at the
    /// current cursor position.
    pub fn drag_start_system(&mut self)
        requires
            app_wf(*old(self)),
        ensures
            app_wf(*final(self)),
            final(self).objects@.len() == old(self).objects@.len(),
            forall |i: int| 0 <= i < old(self).objects@.len()
                ==> final(self).objects@[i]
                    == drag_start_spec(#[trigger] old(self).objects@[i], old(self).cursor),
            *final(self) == (WorkerApp { objects: final(self).objects, ..*old(self) }),
    {
        let n: usize = self.objects.len();
        let cursor = self.cursor;
        let mut i: usize = 0;
        while i < n
            invariant
                app_wf(*old(self)),
                cursor == old(self).cursor,
                n == old(self).objects@.len(),
                self.objects@.len() == n,
                i <= n,
                forall |j: int| 0 <= j < i
                    ==> self.objects@[j]
                        == drag_start_spec(#[trigger] old(self).objects@[j], cursor),
                forall |j: int| i <= j < n ==> self.objects@[j] == old(self).objects@[j],
                forall |j: int| 0 <= j < n ==> pickable_wf(#[trigger] self.objects@[j]),
                *self == (WorkerApp { objects: self.objects, ..*old(self) }),
            decreases n - i,
        {
            let p = self.objects[i];
            if p.hovered && p.drag.is_none() {
                let np = Pickable {
                    id: p.id,
                    shape: p.shape,
                    transform: p.transform,
                    volume: p.volume,
                    stale: p.stale,
                    hovered: p.hovered,
                    selected: p.selected,
                    drag: Some(cursor),
                };
                self.objects.set(i, np);
            }
            i += 1;
        }
    }

    /// Drag finish: every dragged object loses its drag tag, whether or
    /// not the cursor moved.
    pub fn drag_finish_system(&mut self)
        requires
            app_wf(*old(self)),
        ensures
            app_wf(*final(self)),
            final(self).objects@.len() == old(self).objects@.len(),
            forall |i: int| 0 <= i < old(self).objects@.len()
                ==> final(self).objects@[i] == drag_finish_spec(#[trigger] old(self).objects@[i]),
            *final(self) == (WorkerApp { objects: final(self).objects, ..*old(self) }),
    {
        let n: usize = self.objects.len();
        let mut i: usize = 0;
        while i < n
            invariant
                app_wf(*old(self)),
                n == old(self).objects@.len(),
                self.objects@.len() == n,
                i <= n,
                forall |j: int| 0 <= j < i
                    ==> self.objects@[j] == drag_finish_spec(#[trigger] old(self).objects@[j]),
                forall |j: int| i <= j < n ==> self.objects@[j] == old(self).objects@[j],
                forall |j: int| 0 <= j < n ==> pickable_wf(#[trigger] self.objects@[j]),
                *self == (WorkerApp { objects: self.objects, ..*old(self) }),
            decreases n - i,
        {
            let p = self.objects[i];
            if p.drag.is_some() {
                let np = Pickable {
                    id: p.id,
                    shape: p.shape,
                    transform: p.transform,
                    volume: p.volume,
                    stale: p.stale,
                    hovered: p.hovered,
                    selected: p.selected,
                    drag: None,
                };
                self.objects.set(i, np);
            }
            i += 1;
        }
    }

    /// Select: clear the previous selection entirely, then select
    /// exactly the hovered objects. A click that hovers nothing clears
    /// the selection.
    pub fn select_system(&mut self)
        requires
            app_wf(*old(self)),
        ensures
            app_wf(*final(self)),
            final(self).objects@.len() == old(self).objects@.len(),
            forall |i: int| 0 <= i < old(self).objects@.len()
                ==> final(self).objects@[i] == select_spec(#[trigger] old(self).objects@[i]),
            *final(self) == (WorkerApp { objects: final(self).objects, ..*old(self) }),
    {
        let n: usize = self.objects.len();
        let mut i: usize = 0;
        while i < n
            invariant
                app_wf(*old(self)),
                n == old(self).objects@.len(),
                self.objects@.len() == n,
                i <= n,
                forall |j: int| 0 <= j < i
                    ==> self.objects@[j] == select_spec(#[trigger] old(self).objects@[j]),
                forall |j: int| i <= j < n ==> self.objects@[j] == old(self).objects@[j],
                forall |j: int| 0 <= j < n ==> pickable_wf(#[trigger] self.objects@[j]),
                *self == (WorkerApp { objects: self.objects, ..*old(self) }),
            decreases n - i,
        {
            let p = self.objects[i];
            let np = Pickable {
                id: p.id,
                shape: p.shape,
                transform: p.transform,
                volume: p.volume,
                stale: p.stale,
                hovered: p.hovered,
                selected: p.hovered,
                drag: p.drag,
            };
            self.objects.set(i, np);
            i += 1;
        }
    }

    /// Zoom: apply the tick's wheel delta to the active camera's
    /// projection; without a camera the stage is a no-op.
    pub fn zoom_system(&mut self, wheel_y: i64)
        requires
            app_wf(*old(self)),
            in_range(wheel_y),
        ensures
            app_wf(*final(self)),
            old(self).camera is None ==> *final(self) == *old(self),
            old(self).camera is Some ==> *final(self) == (WorkerApp {
                camera: Some(Camera {
                    projection: zoom_proj_spec(old(self).camera.unwrap().projection,
                        wheel_y as int, old(self).settings),
                    ..old(self).camera.unwrap()
                }),
                ..*old(self)
            }),
    {
        let s = self.settings;
        match &mut self.camera {
            Some(cam) => {
                apply_zoom(&mut cam.projection, &s, wheel_y);
            },
            None => {},
        }
    }
}

impl WorkerApp {
    /// Hover resolution: cast the tick's cursor ray, make the hover
    /// flag of every object exactly "the ray hits its cached volume",
    /// and report the hovered ids in object order. With no camera, or
    /// with a camera through which no ray can be cast (cursor outside
    /// the viewport, unprojectable region), the stage is a no-op for
    /// this tick: no flag changes and nothing is reported.
    pub fn hover_system(&mut self, pos: Vec2I) -> (r: Option<Vec<u64>>)
        requires
            app_wf(*old(self)),
            vec2_in_range(pos),
        ensures
            app_wf(*final(self)),
            old(self).camera is None ==> *final(self) == *old(self) && r is None,
            old(self).camera is Some ==> ({
                let ray = cast_spec(pos, old(self).camera.unwrap(), old(self).settings);
                &&& ray is None ==> *final(self) == *old(self) && r is None
                &&& ray is Some ==> ({
                    &&& final(self).objects@.len() == old(self).objects@.len()
                    &&& forall |i: int| 0 <= i < old(self).objects@.len()
                        ==> final(self).objects@[i]
                            == hover_mark_spec(#[trigger] old(self).objects@[i], ray.unwrap())
                    &&& *final(self) == (WorkerApp { objects: final(self).objects, ..*old(self) })
                    &&& r is Some
                    &&& r.unwrap()@ == hovered_ids(final(self).objects@)
                })
            }),
    {
        let cam = match &self.camera {
            None => {
                return None;
            },
            Some(c) => *c,
        };
        let ray = match ray_from_screenspace(pos, &cam, &self.settings) {
            None => {
                return None;
            },
            Some(r) => r,
        };
        let n: usize = self.objects.len();
        let mut ids: Vec<u64> = Vec::new();
        let mut i: usize = 0;
        while i < n
            invariant
                app_wf(*old(self)),
                old(self).camera == Some(cam),
                cast_spec(pos, cam, old(self).settings) == Some(ray),
                crate::camera::ray_wf(ray),
                n == old(self).objects@.len(),
                self.objects@.len() == n,
                i <= n,
                forall |j: int| 0 <= j < i
                    ==> self.objects@[j]
                        == hover_mark_spec(#[trigger] old(self).objects@[j], ray),
                forall |j: int| i <= j < n ==> self.objects@[j] == old(self).objects@[j],
                forall |j: int| 0 <= j < n ==> pickable_wf(#[trigger] self.objects@[j]),
                *self == (WorkerApp { objects: self.objects, ..*old(self) }),
                ids@ == hovered_ids(self.objects@.take(i as int)),
            decreases n - i,
        {
            let p = self.objects[i];
            let hit: bool = ray_aabb_hit(&ray.origin, &ray.dir, &p.volume.0);
            let np = Pickable {
                id: p.id,
                shape: p.shape,
                transform: p.transform,
                volume: p.volume,
                stale: p.stale,
                hovered: hit,
                selected: p.selected,
                drag: p.drag,
            };
            let ghost prev = self.objects@;
            self.objects.set(i, np);
            if hit {
                ids.push(p.id);
            }
            proof {
                assert(self.objects@.take(i as int) =~= prev.take(i as int));
                assert(self.objects@.take(i as int + 1).drop_last()
                    =~= self.objects@.take(i as int));
                assert(self.objects@.take(i as int + 1).last() == np);
            }
            i += 1;
        }
        proof {
            assert(self.objects@.take(n as int) =~= self.objects@);
        }
        Some(ids)
    }

    /// Drag move: translate every dragged object by the world delta
    /// between the drag-plane points under the cursor and under its
    /// anchor, and re-anchor it at the cursor, so repeated deltas never
    /// double-count. Without a camera the stage is a no-op.
    pub fn drag_system(&mut self, pos: Vec2I)
        requires
            app_wf(*old(self)),
            vec2_in_range(pos),
        ensures
            app_wf(*final(self)),
            old(self).camera is None ==> *final(self) == *old(self),
            old(self).camera is Some ==> ({
                &&& final(self).objects@.len() == old(self).objects@.len()
                &&& forall |i: int| 0 <= i < old(self).objects@.len()
                    ==> final(self).objects@[i]
                        == drag_move_spec(#[trigger] old(self).objects@[i],
                            old(self).camera.unwrap(), old(self).settings, pos)
                &&& *final(self) == (WorkerApp { objects: final(self).objects, ..*old(self) })
            }),
    {
        let cam = match &self.camera {
            None => {
                return;
            },
            Some(c) => *c,
        };
        let cur_opt = screen_to_world(pos, &cam, &self.settings);
        let n: usize = self.objects.len();
        let mut i: usize = 0;
        while i < n
            invariant
                app_wf(*old(self)),
                old(self).camera == Some(cam),
                cur_opt == screen_to_world_spec(pos, cam, old(self).settings),
                cur_opt is Some ==> crate::math::vec3_vol_range(cur_opt.unwrap()),
                vec2_in_range(pos),
                n == old(self).objects@.len(),
                self.objects@.len() == n,
                i <= n,
                forall |j: int| 0 <= j < i
                    ==> self.objects@[j]
                        == drag_move_spec(#[trigger] old(self).objects@[j], cam,
                            old(self).settings, pos),
                forall |j: int| i <= j < n ==> self.objects@[j] == old(self).objects@[j],
                forall |j: int| 0 <= j < n ==> pickable_wf(#[trigger] self.objects@[j]),
                *self == (WorkerApp { objects: self.objects, ..*old(self) }),
            decreases n - i,
        {
            let p = self.objects[i];
            if let Some(anchor) = p.drag {
                if let Some(cur) = cur_opt {
                    let start_opt = screen_to_world(anchor, &cam, &self.settings);
                    if let Some(start) = start_opt {
                        let nt = Vec3I {
                            x: clamp_i64(p.transform.translation.x + (cur.x - start.x),
                                -COORD_LIMIT, COORD_LIMIT),
                            y: clamp_i64(p.transform.translation.y + (cur.y - start.y),
                                -COORD_LIMIT, COORD_LIMIT),
                            z: clamp_i64(p.transform.translation.z + (cur.z - start.z),
                                -COORD_LIMIT, COORD_LIMIT),
                        };
                        let np = Pickable {
                            id: p.id,
                            shape: p.shape,
                            transform: Transform {
                                translation: nt,
                                rotation: p.transform.rotation,
                            },
                            volume: p.volume,
                            stale: true,
                            hovered: p.hovered,
                            selected: p.selected,
                            drag: Some(pos),
                        };
                        self.objects.set(i, np);
                    }
                }
            }
            i += 1;
        }
    }
}

// ---------------------------------------------------------------
// The tick: the whole per-frame pipeline in its fixed order.
// ---------------------------------------------------------------

/// The volume-refresh stage over the whole object sequence.
pub open spec fn stage_refresh(o: Seq<Pickable>) -> Seq<Pickable> {
    o.map_values(|p: Pickable| refresh_spec(p))
}

/// The hover stage over the whole object sequence; it changes flags
/// only when a pointer move arrived, a camera exists, and the camera
/// casts a ray for the cursor — otherwise the stage is a no-op.
pub open spec fn stage_hover(o: Seq<Pickable>, cam: Option<Camera>, s: CameraSettings,
    moved: Option<Vec2I>) -> Seq<Pickable> {
    match (moved, cam) {
        (Some(pos), Some(c)) => match cast_spec(pos, c, s) {
            Some(ray) => o.map_values(|p: Pickable| hover_mark_spec(p, ray)),
            None => o,
        },
        _ => o,
    }
}

/// The object sequence after one whole tick.
pub open spec fn tick_objects_spec(o0: Seq<Pickable>, cam: Option<Camera>, s: CameraSettings,
    cursor0: Vec2I, input: TickInput) -> Seq<Pickable> {
    let cursor1 = match input.cursor_moved {
        Some(p) => p,
        None => cursor0,
    };
    let o1 = stage_refresh(o0);
    let o2 = stage_hover(o1, cam, s, input.cursor_moved);
    let o3 = if input.mouse_pressed {
        o2.map_values(|p: Pickable| drag_start_spec(p, cursor1))
    } else {
        o2
    };
    let o4 = if input.mouse_released {
        o3.map_values(|p: Pickable| drag_finish_spec(p))
    } else {
        o3
    };
    let o5 = match (input.cursor_moved, cam) {
        (Some(pos), Some(c)) => o4.map_values(|p: Pickable| drag_move_spec(p, c, s, pos)),
        _ => o4,
    };
    if input.mouse_pressed {
        o5.map_values(|p: Pickable| select_spec(p))
    } else {
        o5
    }
}

/// The pick notification of one tick: the hovered ids right after the
/// hover stage.
pub open spec fn tick_pick_spec(o0: Seq<Pickable>, cam: Camera, s: CameraSettings,
    pos: Vec2I) -> Seq<u64> {
    hovered_ids(stage_hover(stage_refresh(o0), Some(cam), s, Some(pos)))
}

/// The camera after one tick: only the zoom stage touches it.
pub open spec fn tick_camera_spec(cam: Option<Camera>, wheel_y: int, s: CameraSettings)
    -> Option<Camera> {
    match cam {
        None => None,
        Some(c) => Some(Camera { projection: zoom_proj_spec(c.projection, wheel_y, s), ..c }),
    }
}

impl WorkerApp {
    /// One animation tick: volume refresh, then, each gated on its
    /// input, hover, drag start, drag finish, drag move, select, zoom.
    /// Returns the pick notification of the hover stage, present
    /// exactly when a pointer move arrived and the camera cast a ray
    /// for it.
    pub fn tick(&mut self, input: TickInput) -> (pick: Option<Vec<u64>>)
        requires
            app_wf(*old(self)),
            tick_input_wf(input),
        ensures
            app_wf(*final(self)),
            final(self).objects@ == tick_objects_spec(old(self).objects@, old(self).camera,
                old(self).settings, old(self).cursor, input),
            final(self).cursor == (match input.cursor_moved {
                Some(p) => p,
                None => old(self).cursor,
            }),
            final(self).camera == tick_camera_spec(old(self).camera, input.wheel_y as int,
                old(self).settings),
            final(self).settings == old(self).settings,
            final(self).scale_factor == old(self).scale_factor,
            final(self).window_ready == old(self).window_ready,
            final(self).exit_requested == old(self).exit_requested,
            final(self).mailbox == old(self).mailbox,
            pick is Some <==> (input.cursor_moved is Some && old(self).camera is Some
                && cast_spec(input.cursor_moved.unwrap(), old(self).camera.unwrap(),
                    old(self).settings) is Some),
            pick is Some ==> pick.unwrap()@ == tick_pick_spec(old(self).objects@,
                old(self).camera.unwrap(), old(self).settings, input.cursor_moved.unwrap()),
    {
        let ghost s0 = *self;
        self.update_aabbes();
        let ghost s1 = *self;
        proof {
            assert(s1.objects@ =~= stage_refresh(s0.objects@));
        }
        if let Some(pos) = input.cursor_moved {
            self.position_system(pos);
        }
        let pick: Option<Vec<u64>> = match input.cursor_moved {
            Some(pos) => self.hover_system(pos),
            None => None,
        };
        let ghost s2 = *self;
        proof {
            assert(s2.objects@ =~= stage_hover(s1.objects@, s0.camera, s0.settings,
                input.cursor_moved));
        }
        if input.mouse_pressed {
            self.drag_start_system();
        }
        let ghost s3 = *self;
        proof {
            if input.mouse_pressed {
                assert(s3.objects@ =~= s2.objects@.map_values(|p: Pickable| drag_start_spec(p,
                    match input.cursor_moved {
                        Some(p2) => p2,
                        None => s0.cursor,
                    })));
            }
        }
        if input.mouse_released {
            self.drag_finish_system();
        }
        let ghost s4 = *self;
        proof {
            if input.mouse_released {
                assert(s4.objects@ =~= s3.objects@.map_values(
                    |p: Pickable| drag_finish_spec(p)));
            }
        }
        if let Some(pos) = input.cursor_moved {
            self.drag_system(pos);
        }
        let ghost s5 = *self;
        proof {
            if input.cursor_moved is Some && s0.camera is Some {
                assert(s5.objects@ =~= s4.objects@.map_values(
                    |p: Pickable| drag_move_spec(p, s0.camera.unwrap(), s0.settings,
                        input.cursor_moved.unwrap())));
            }
        }
        if input.mouse_pressed {
            self.select_system();
        }
        let ghost s6 = *self;
        proof {
            if input.mouse_pressed {
                assert(s6.objects@ =~= s5.objects@.map_values(|p: Pickable| select_spec(p)));
            }
            assert(s6.objects@ == tick_objects_spec(s0.objects@, s0.camera, s0.settings,
                s0.cursor, input));
        }
        self.zoom_system(input.wheel_y);
        pick
    }
}

fn empty_mailbox_exec() -> (m: Mailbox)
    ensures
        m == empty_mailbox(),
{
    Mailbox {
        mouse_move: None,
        mouse_pressed: false,
        mouse_released: false,
        wheel_y: 0,
        key: None,
    }
}

// ---------------------------------------------------------------
// Event intake: the bridge's writes into the mailbox, and the tick's
// snapshot of it.
// ---------------------------------------------------------------

/// The mouse button a foreign button index denotes.
#[derive(Clone, Copy, Debug, PartialEq, Eq, Structural)]
pub enum MouseButton {
    Left,
    Middle,
    Right,
    Back,
    Forward,
    Other(u16),
}

pub open spec fn mouse_button_spec(b: int) -> MouseButton {
    if b == 0 {
        MouseButton::Left
    } else if b == 1 {
        MouseButton::Middle
    } else if b == 2 {
        MouseButton::Right
    } else if b == 3 {
        MouseButton::Back
    } else if b == 4 {
        MouseButton::Forward
    } else {
        MouseButton::Other(((if b < 0 { b + 0x10000 } else { b }) % 0x10000) as u16)
    }
}

/// Map a foreign button index to a mouse button.
pub fn mouse_button(button: i16) -> (r: MouseButton)
    ensures
        r == mouse_button_spec(button as int),
{
    if button == 0 {
        MouseButton::Left
    } else if button == 1 {
        MouseButton::Middle
    } else if button == 2 {
        MouseButton::Right
    } else if button == 3 {
        MouseButton::Back
    } else if button == 4 {
        MouseButton::Forward
    } else {
        let t: u16 = if button >= 0 {
            button as u16
        } else {
            ((button as i32) + 0x10000) as u16
        };
        MouseButton::Other(t)
    }
}

/// The unit of a wheel delta: mode one is lines, everything else
/// pixels.
#[derive(Clone, Copy, Debug, PartialEq, Eq, Structural)]
pub enum MouseScrollUnit {
    Line,
    Pixel,
}

/// Map a foreign wheel delta mode to a scroll unit.
pub fn mouse_scroll_unit(delta_mode: u8) -> (r: MouseScrollUnit)
    ensures
        r == (if delta_mode == 1 {
            MouseScrollUnit::Line
        } else {
            MouseScrollUnit::Pixel
        }),
{
    if delta_mode == 1 {
        MouseScrollUnit::Line
    } else {
        MouseScrollUnit::Pixel
    }
}

/// One logical coordinate scaled to physical pixels: multiplied by the
/// scale factor, saturating at the coordinate limit.
pub open spec fn scale_coord_spec(x: int, sf: int) -> int {
    clamp_spec(tdiv(x * sf, FIX_ONE as int), -(COORD_LIMIT as int), COORD_LIMIT as int)
}

fn scale_coord(x: i64, sf: i64) -> (r: i64)
    requires
        in_range(x),
        0 < sf <= COORD_LIMIT as int,
    ensures
        r == scale_coord_spec(x as int, sf as int),
        in_range(r),
{
    proof {
        assert(-10_000_000_000_000_000int <= (x as int) * (sf as int)
            <= 10_000_000_000_000_000int) by (nonlinear_arith)
            requires
                -100_000_000int <= x as int <= 100_000_000int,
                0 < sf as int <= 100_000_000int;
        lemma_tdiv_bound((x as int) * (sf as int), FIX_ONE as int, 10_000_000_000_000_000int);
    }
    let scaled: i64 = mul_div(x, sf, FIX_ONE);
    clamp_i64(scaled, -COORD_LIMIT, COORD_LIMIT)
}

/// A logical coordinate pair scaled to physical pixels.
pub open spec fn to_physical_spec(x: int, y: int, sf: int) -> Vec2I {
    Vec2I {
        x: scale_coord_spec(x, sf) as i64,
        y: scale_coord_spec(y, sf) as i64,
    }
}

impl WorkerApp {
    /// Convert a logical coordinate to physical pixels with the stored
    /// scale factor. The conversion happens once, here at the bridge
    /// boundary, never inside the caster.
    pub fn to_physical_size(&self, x: i64, y: i64) -> (v: Vec2I)
        requires
            app_wf(*self),
            in_range(x),
            in_range(y),
        ensures
            v == to_physical_spec(x as int, y as int, self.scale_factor as int),
            vec2_in_range(v),
    {
        Vec2I {
            x: scale_coord(x, self.scale_factor),
            y: scale_coord(y, self.scale_factor),
        }
    }

    /// A pointer release: remember that the primary button was just
    /// released. Other buttons leave the pipeline untouched.
    pub fn on_mouse_up(&mut self, button: i16)
        requires
            app_wf(*old(self)),
        ensures
            app_wf(*final(self)),
            *final(self) == (WorkerApp {
                mailbox: Mailbox {
                    mouse_released: old(self).mailbox.mouse_released
                        || mouse_button_spec(button as int) == MouseButton::Left,
                    ..old(self).mailbox
                },
                ..*old(self)
            }),
    {
        let b = mouse_button(button);
        if let MouseButton::Left = b {
            self.mailbox.mouse_released = true;
        }
    }

    /// A pointer press: remember that the primary button was just
    /// pressed. The coordinates accompany the foreign event but the
    /// press itself carries no cursor update.
    pub fn on_mouse_down(&mut self, button: i16, x: i64, y: i64)
        requires
            app_wf(*old(self)),
        ensures
            app_wf(*final(self)),
            *final(self) == (WorkerApp {
                mailbox: Mailbox {
                    mouse_pressed: old(self).mailbox.mouse_pressed
                        || mouse_button_spec(button as int) == MouseButton::Left,
                    ..old(self).mailbox
                },
                ..*old(self)
            }),
    {
        let b = mouse_button(button);
        if let MouseButton::Left = b {
            self.mailbox.mouse_pressed = true;
        }
    }

    /// A pointer move: the mailbox keeps only the latest position,
    /// scaled to physical pixels — earlier moves of the same tick are
    /// discarded.
    pub fn on_mouse_move(&mut self, x: i64, y: i64)
        requires
            app_wf(*old(self)),
            in_range(x),
            in_range(y),
        ensures
            app_wf(*final(self)),
            *final(self) == (WorkerApp {
                mailbox: Mailbox {
                    mouse_move: Some(to_physical_spec(x as int, y as int,
                        old(self).scale_factor as int)),
                    ..old(self).mailbox
                },
                ..*old(self)
            }),
    {
        let pos = self.to_physical_size(x, y);
        self.mailbox.mouse_move = Some(pos);
    }

    /// A wheel event: the vertical delta accumulates, saturating at the
    /// coordinate limit.
    pub fn on_wheel(&mut self, _delta_x: i64, delta_y: i64, _delta_mode: u8)
        requires
            app_wf(*old(self)),
            in_range(delta_y),
        ensures
            app_wf(*final(self)),
            *final(self) == (WorkerApp {
                mailbox: Mailbox {
                    wheel_y: clamp_spec(old(self).mailbox.wheel_y + delta_y,
                        -(COORD_LIMIT as int), COORD_LIMIT as int) as i64,
                    ..old(self).mailbox
                },
                ..*old(self)
            }),
    {
        self.mailbox.wheel_y = clamp_i64(self.mailbox.wheel_y + delta_y,
            -COORD_LIMIT, COORD_LIMIT);
    }

    /// A key release: the mailbox keeps only the latest decoded
    /// keyboard event.
    pub fn on_key_up(&mut self, code: &str, repeat: bool)
        requires
            app_wf(*old(self)),
        ensures
            app_wf(*final(self)),
            *final(self) == (WorkerApp {
                mailbox: Mailbox {
                    key: Some(KeyboardInput {
                        key_code: crate::keyboard::as_key_code_spec(code@),
                        logical_key: crate::keyboard::as_key_spec(code@),
                        pressed: false,
                        text: crate::keyboard::key_text_spec(
                            crate::keyboard::as_key_spec(code@)),
                        repeat,
                    }),
                    ..old(self).mailbox
                },
                ..*old(self)
            }),
    {
        let ev = crate::keyboard::decode_key_event(code, false, repeat);
        self.mailbox.key = Some(ev);
    }

    /// A key press: the mailbox keeps only the latest decoded keyboard
    /// event.
    pub fn on_key_down(&mut self, code: &str, repeat: bool)
        requires
            app_wf(*old(self)),
        ensures
            app_wf(*final(self)),
            *final(self) == (WorkerApp {
                mailbox: Mailbox {
                    key: Some(KeyboardInput {
                        key_code: crate::keyboard::as_key_code_spec(code@),
                        logical_key: crate::keyboard::as_key_spec(code@),
                        pressed: true,
                        text: crate::keyboard::key_text_spec(
                            crate::keyboard::as_key_spec(code@)),
                        repeat,
                    }),
                    ..old(self).mailbox
                },
                ..*old(self)
            }),
    {
        let ev = crate::keyboard::decode_key_event(code, true, repeat);
        self.mailbox.key = Some(ev);
    }

    /// Drain the mailbox into one tick's input snapshot; the mailbox is
    /// left empty, so each event is consumed by exactly one tick.
    pub fn take_tick_input(&mut self) -> (t: TickInput)
        requires
            app_wf(*old(self)),
        ensures
            app_wf(*final(self)),
            t == (TickInput {
                cursor_moved: old(self).mailbox.mouse_move,
                mouse_pressed: old(self).mailbox.mouse_pressed,
                mouse_released: old(self).mailbox.mouse_released,
                wheel_y: old(self).mailbox.wheel_y,
            }),
            tick_input_wf(t),
            *final(self) == (WorkerApp { mailbox: empty_mailbox(), ..*old(self) }),
    {
        let t = TickInput {
            cursor_moved: self.mailbox.mouse_move,
            mouse_pressed: self.mailbox.mouse_pressed,
            mouse_released: self.mailbox.mouse_released,
            wheel_y: self.mailbox.wheel_y,
        };
        self.mailbox = empty_mailbox_exec();
        t
    }

    /// Drain the mailbox and run one tick on the snapshot.
    pub fn update(&mut self) -> (pick: Option<Vec<u64>>)
        requires
            app_wf(*old(self)),
        ensures
            app_wf(*final(self)),
            ({
                let input = TickInput {
                    cursor_moved: old(self).mailbox.mouse_move,
                    mouse_pressed: old(self).mailbox.mouse_pressed,
                    mouse_released: old(self).mailbox.mouse_released,
                    wheel_y: old(self).mailbox.wheel_y,
                };
                &&& final(self).objects@ == tick_objects_spec(old(self).objects@,
                    old(self).camera, old(self).settings, old(self).cursor, input)
                &&& final(self).camera == tick_camera_spec(old(self).camera,
                    input.wheel_y as int, old(self).settings)
                &&& final(self).mailbox == empty_mailbox()
                &&& (pick is Some <==> (input.cursor_moved is Some && old(self).camera is Some
                    && cast_spec(input.cursor_moved.unwrap(), old(self).camera.unwrap(),
                        old(self).settings) is Some))
                &&& (pick is Some ==> pick.unwrap()@ == tick_pick_spec(old(self).objects@,
                    old(self).camera.unwrap(), old(self).settings,
                    input.cursor_moved.unwrap()))
            }),
    {
        let input = self.take_tick_input();
        self.tick(input)
    }

    /// The readiness poll of the startup phase: once the underlying
    /// plugins report ready, the window is considered cached and the
    /// pipeline may start processing input.
    pub fn try_finish(&mut self, plugins_ready: bool) -> (done: bool)
        requires
            app_wf(*old(self)),
        ensures
            app_wf(*final(self)),
            done == plugins_ready,
            *final(self) == (WorkerApp {
                window_ready: old(self).window_ready || plugins_ready,
                ..*old(self)
            }),
    {
        if plugins_ready {
            self.window_ready = true;
            true
        } else {
            false
        }
    }

    /// Note an external exit request; the frame loop observes it after
    /// the next completed tick.
    pub fn request_exit(&mut self)
        requires
            app_wf(*old(self)),
        ensures
            app_wf(*final(self)),
            *final(self) == (WorkerApp { exit_requested: true, ..*old(self) }),
    {
        self.exit_requested = true;
    }

    /// Install the active camera.
    pub fn set_camera(&mut self, cam: Camera)
        requires
            app_wf(*old(self)),
            camera_wf(cam),
        ensures
            app_wf(*final(self)),
            *final(self) == (WorkerApp { camera: Some(cam), ..*old(self) }),
    {
        self.camera = Some(cam);
    }

    /// Add a pickable box to the scene. Its volume starts stale and is
    /// computed by the next tick's refresh stage.
    pub fn spawn_object(&mut self, id: u64, half: Vec3I, transform: Transform)
        requires
            app_wf(*old(self)),
            0 <= half.x <= COORD_LIMIT as int,
            0 <= half.y <= COORD_LIMIT as int,
            0 <= half.z <= COORD_LIMIT as int,
            transform_wf(transform),
        ensures
            app_wf(*final(self)),
            final(self).objects@ == old(self).objects@.push(Pickable {
                id,
                shape: Shape::Box { half },
                transform,
                volume: CurrentVolume(Aabb {
                    min: Vec3I { x: 0, y: 0, z: 0 },
                    max: Vec3I { x: 0, y: 0, z: 0 },
                }),
                stale: true,
                hovered: false,
                selected: false,
                drag: None,
            }),
            *final(self) == (WorkerApp { objects: final(self).objects, ..*old(self) }),
    {
        let p = Pickable {
            id,
            shape: Shape::Box { half },
            transform,
            volume: CurrentVolume(Aabb {
                min: Vec3I { x: 0, y: 0, z: 0 },
                max: Vec3I { x: 0, y: 0, z: 0 },
            }),
            stale: true,
            hovered: false,
            selected: false,
            drag: None,
        };
        self.objects.push(p);
    }

    /// Replace an object's transform, marking its volume stale so the
    /// next refresh recomputes it.
    pub fn set_transform(&mut self, i: usize, t: Transform)
        requires
            app_wf(*old(self)),
            i < old(self).objects@.len(),
            transform_wf(t),
        ensures
            app_wf(*final(self)),
            final(self).objects@ == old(self).objects@.update(i as int, Pickable {
                transform: t,
                stale: true,
                ..old(self).objects@[i as int]
            }),
            *final(self) == (WorkerApp { objects: final(self).objects, ..*old(self) }),
    {
        let p = self.objects[i];
        let np = Pickable {
            id: p.id,
            shape: p.shape,
            transform: t,
            volume: p.volume,
            stale: true,
            hovered: p.hovered,
            selected: p.selected,
            drag: p.drag,
        };
        self.objects.set(i, np);
    }
}

// ---------------------------------------------------------------
// Laws of the state machine.
// ---------------------------------------------------------------

/// An object whose shape and transform did not change since its last
/// volume recompute keeps its cached volume bit-identical through the
/// refresh stage: there is no spurious recompute.
pub proof fn lemma_no_spurious_recompute(p: Pickable)
    requires
        !p.stale,
    ensures
        refresh_spec(p) == p,
{
}

/// The hover set mirrors the latest resolution exactly: after a hover
/// stage an object's flag is precisely "this tick's ray hits its
/// volume", whatever the flag was before — a resolution with zero hits
/// clears every previously hovered object.
pub proof fn lemma_hover_mirrors_resolution(p: Pickable, ray: Ray)
    ensures
        hover_mark_spec(p, ray).hovered == ray_hits(ray.origin, ray.dir, p.volume.0),
{
}

/// Select is idempotent under an unchanged hover set, and leaves at
/// most one selection generation: after a select stage the selection
/// is exactly the hover set, and selecting again changes nothing.
pub proof fn lemma_select_idempotent(p: Pickable)
    ensures
        select_spec(p).selected == p.hovered,
        select_spec(select_spec(p)) == select_spec(p),
{
}

/// A fresh cache really bounds its object: after a refresh, the cached
/// volume contains every corner of the object's box under the
/// object's transform.
pub proof fn lemma_volume_bounds_shape(p: Pickable, sx: int, sy: int, sz: int)
    requires
        pickable_wf(p),
        !p.stale,
        sx == 1 || sx == -1,
        sy == 1 || sy == -1,
        sz == 1 || sz == -1,
    ensures
        ({
            let half = shape_half(p.shape);
            let corner = Vec3I {
                x: (sx * half.x) as i64,
                y: (sy * half.y) as i64,
                z: (sz * half.z) as i64,
            };
            let w = crate::math::rot_apply_spec(p.transform.rotation, corner);
            &&& p.volume.0.min.x <= p.transform.translation.x + w.x <= p.volume.0.max.x
            &&& p.volume.0.min.y <= p.transform.translation.y + w.y <= p.volume.0.max.y
            &&& p.volume.0.min.z <= p.transform.translation.z + w.z <= p.volume.0.max.z
        }),
{
    crate::math::lemma_aabb_contains_corners(shape_half(p.shape), p.transform, sx, sy, sz);
}

/// Select is idempotent over the whole scene: running the select stage
/// twice on an object sequence gives the same sequence as running it
/// once.
pub proof fn lemma_select_seq_idempotent(s: Seq<Pickable>)
    ensures
        s.map_values(|p: Pickable| select_spec(p)).map_values(|p: Pickable| select_spec(p))
            == s.map_values(|p: Pickable| select_spec(p)),
{
    let one = s.map_values(|p: Pickable| select_spec(p));
    let two = one.map_values(|p: Pickable| select_spec(p));
    assert forall |i: int| 0 <= i < two.len() implies two[i] == one[i] by {
        assert(one[i] == select_spec(s[i]));
        assert(two[i] == select_spec(one[i]));
    }
    assert(two =~= one);
}

/// An object whose volume center lies on this tick's ray within the
/// pick cutoff carries the hover flag after the hover stage.
pub proof fn lemma_center_ray_is_hovered(p: Pickable, ray: Ray, tn: int, td: int)
    requires
        td > 0,
        tn >= 0,
        p.volume.0.min.x <= p.volume.0.max.x,
        p.volume.0.min.y <= p.volume.0.max.y,
        p.volume.0.min.z <= p.volume.0.max.z,
        2 * (td * (ray.origin.x as int) + tn * (ray.dir.x as int))
            == td * ((p.volume.0.min.x as int) + (p.volume.0.max.x as int)),
        2 * (td * (ray.origin.y as int) + tn * (ray.dir.y as int))
            == td * ((p.volume.0.min.y as int) + (p.volume.0.max.y as int)),
        2 * (td * (ray.origin.z as int) + tn * (ray.dir.z as int))
            == td * ((p.volume.0.min.z as int) + (p.volume.0.max.z as int)),
        crate::pick::within_cutoff(ray.dir, tn, td),
    ensures
        hover_mark_spec(p, ray).hovered,
{
    crate::pick::lemma_center_ray_hits(ray.origin, ray.dir, p.volume.0, tn, td);
}

/// Drag is delta-based and re-anchoring: moving the cursor from anchor
/// `a` to `b` and then to `c` translates the object by exactly
/// `world(c) - world(a)` — re-anchoring at `b` does not double-count
/// the first delta. Holds whenever all three drag-plane points exist
/// and neither move reaches the coordinate clamp.
pub proof fn lemma_drag_telescopes(p: Pickable, cam: Camera, s: CameraSettings, a: Vec2I,
    b: Vec2I, c: Vec2I, wa: Vec3I, wb: Vec3I, wc: Vec3I)
    requires
        p.drag == Some(a),
        screen_to_world_spec(a, cam, s) == Some(wa),
        screen_to_world_spec(b, cam, s) == Some(wb),
        screen_to_world_spec(c, cam, s) == Some(wc),
        -(COORD_LIMIT as int) <= p.transform.translation.x + wb.x - wa.x <= COORD_LIMIT as int,
        -(COORD_LIMIT as int) <= p.transform.translation.y + wb.y - wa.y <= COORD_LIMIT as int,
        -(COORD_LIMIT as int) <= p.transform.translation.z + wb.z - wa.z <= COORD_LIMIT as int,
        -(COORD_LIMIT as int) <= p.transform.translation.x + wc.x - wa.x <= COORD_LIMIT as int,
        -(COORD_LIMIT as int) <= p.transform.translation.y + wc.y - wa.y <= COORD_LIMIT as int,
        -(COORD_LIMIT as int) <= p.transform.translation.z + wc.z - wa.z <= COORD_LIMIT as int,
    ensures
        ({
            let p2 = drag_move_spec(drag_move_spec(p, cam, s, b), cam, s, c);
            &&& p2.transform.translation.x == p.transform.translation.x + wc.x - wa.x
            &&& p2.transform.translation.y == p.transform.translation.y + wc.y - wa.y
            &&& p2.transform.translation.z == p.transform.translation.z + wc.z - wa.z
            &&& p2.drag == Some(c)
        }),
{
    let p1 = drag_move_spec(p, cam, s, b);
    assert(p1.drag == Some(b));
    assert(p1.transform.translation.x == p.transform.translation.x + wb.x - wa.x);
    let p2 = drag_move_spec(p1, cam, s, c);
    assert(p2.transform.translation.x
        == p1.transform.translation.x + wc.x - wb.x);
}

/// Scaling a logical coordinate whose product stays in range is the
/// exact fixed-point product with the scale factor: a logical `x` with
/// factor `s` lands at `x * s`.
pub proof fn lemma_scaling_exact(x: int, sf: int)
    requires
        -(COORD_LIMIT as int) <= tdiv(x * sf, FIX_ONE as int) <= COORD_LIMIT as int,
    ensures
        scale_coord_spec(x, sf) == tdiv(x * sf, FIX_ONE as int),
{
}

// ---------------------------------------------------------------
// The frame loop's decision, taken at the top of every animation
// callback.
// ---------------------------------------------------------------

/// What one animation-frame callback should do.
#[derive(Clone, Copy, Debug, PartialEq, Eq, Structural)]
pub enum FrameAction {
    /// Startup: the substrate is still initializing; only poll
    /// readiness and reschedule.
    PollReadiness,
    /// Startup just completed: announce readiness outward, then
    /// reschedule.
    NotifyReady,
    /// Steady state: run one full tick, then reschedule.
    RunTick,
    /// An exit request was observed after a completed tick: stop.
    Shutdown,
}

pub open spec fn frame_decision_spec(window_ready: bool, plugins_ready: bool,
    exit_requested: bool) -> FrameAction {
    if !window_ready {
        if plugins_ready {
            FrameAction::NotifyReady
        } else {
            FrameAction::PollReadiness
        }
    } else if exit_requested {
        FrameAction::Shutdown
    } else {
        FrameAction::RunTick
    }
}

/// Decide what this animation frame does: during startup only
/// readiness is polled and no input is processed; once ready every
/// frame runs a full tick; an observed exit request ends the loop, and
/// nothing else does.
pub fn frame_decision(window_ready: bool, plugins_ready: bool, exit_requested: bool)
    -> (a: FrameAction)
    ensures
        a == frame_decision_spec(window_ready, plugins_ready, exit_requested),
{
    if !window_ready {
        if plugins_ready {
            FrameAction::NotifyReady
        } else {
            FrameAction::PollReadiness
        }
    } else if exit_requested {
        FrameAction::Shutdown
    } else {
        FrameAction::RunTick
    }
}

} // verus!
