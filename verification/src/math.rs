//! Vectors, rotation matrices and axis-aligned bounding boxes, all in
//! fixed-point coordinates.

use vstd::prelude::*;
use crate::fixed::{COORD_LIMIT, FIX_ONE, in_range, tdiv, div_trunc};

verus! {

/// A 2D point or offset, in fixed-point units.
#[derive(Clone, Copy, Debug, PartialEq, Eq, Structural)]
pub struct Vec2I {
    pub x: i64,
    pub y: i64,
}

/// A 3D point or offset, in fixed-point units.
#[derive(Clone, Copy, Debug, PartialEq, Eq, Structural)]
pub struct Vec3I {
    pub x: i64,
    pub y: i64,
    pub z: i64,
}

/// A rotation matrix in row-major order; each entry is a fixed-point
/// scalar in `[-FIX_ONE, FIX_ONE]`.
#[derive(Clone, Copy, Debug, PartialEq, Eq, Structural)]
pub struct RotMat {
    pub xx: i64,
    pub xy: i64,
    pub xz: i64,
    pub yx: i64,
    pub yy: i64,
    pub yz: i64,
    pub zx: i64,
    pub zy: i64,
    pub zz: i64,
}

/// A rigid placement: rotate by `rotation`, then move by `translation`.
#[derive(Clone, Copy, Debug, PartialEq, Eq, Structural)]
pub struct Transform {
    pub translation: Vec3I,
    pub rotation: RotMat,
}

/// A world-space axis-aligned bounding box.
#[derive(Clone, Copy, Debug, PartialEq, Eq, Structural)]
pub struct Aabb {
    pub min: Vec3I,
    pub max: Vec3I,
}

/// The cached world-space bounding volume of a pickable object.
#[derive(Clone, Copy, Debug, PartialEq, Eq, Structural)]
pub struct CurrentVolume(pub Aabb);

/// Magnitude bound on volume coordinates: a volume's corner may move up
/// to three `COORD_LIMIT` away from an in-range center.
pub open spec fn vol_range(v: i64) -> bool {
    -4 * (COORD_LIMIT as int) <= v <= 4 * (COORD_LIMIT as int)
}

/// Magnitude bound on ray direction components, wider than volume
/// coordinates because a perspective direction carries a focal length.
pub open spec fn dir_range(v: i64) -> bool {
    -10 * (COORD_LIMIT as int) <= v <= 10 * (COORD_LIMIT as int)
}

pub open spec fn vec2_in_range(v: Vec2I) -> bool {
    in_range(v.x) && in_range(v.y)
}

pub open spec fn vec3_vol_range(v: Vec3I) -> bool {
    vol_range(v.x) && vol_range(v.y) && vol_range(v.z)
}

pub open spec fn vec3_dir_range(v: Vec3I) -> bool {
    dir_range(v.x) && dir_range(v.y) && dir_range(v.z)
}

pub open spec fn vec3_in_range(v: Vec3I) -> bool {
    in_range(v.x) && in_range(v.y) && in_range(v.z)
}

pub open spec fn aabb_in_range(b: Aabb) -> bool {
    vol_range(b.min.x) && vol_range(b.min.y) && vol_range(b.min.z)
        && vol_range(b.max.x) && vol_range(b.max.y) && vol_range(b.max.z)
}

/// A rotation matrix is well formed when every entry has magnitude at
/// most one unit.
pub open spec fn rot_wf(r: RotMat) -> bool {
    &&& -(FIX_ONE as int) <= r.xx <= FIX_ONE as int
    &&& -(FIX_ONE as int) <= r.xy <= FIX_ONE as int
    &&& -(FIX_ONE as int) <= r.xz <= FIX_ONE as int
    &&& -(FIX_ONE as int) <= r.yx <= FIX_ONE as int
    &&& -(FIX_ONE as int) <= r.yy <= FIX_ONE as int
    &&& -(FIX_ONE as int) <= r.yz <= FIX_ONE as int
    &&& -(FIX_ONE as int) <= r.zx <= FIX_ONE as int
    &&& -(FIX_ONE as int) <= r.zy <= FIX_ONE as int
    &&& -(FIX_ONE as int) <= r.zz <= FIX_ONE as int
}

pub open spec fn transform_wf(t: Transform) -> bool {
    vec3_in_range(t.translation) && rot_wf(t.rotation)
}

pub open spec fn abs_spec(v: int) -> int {
    if v >= 0 {
        v
    } else {
        -v
    }
}

/// One row of the absolute rotation matrix applied to a nonnegative
/// half-extent vector, scaled back to fixed point: the half-extent of a
/// rotated box along one world axis.
pub open spec fn abs_row_dot(a: int, b: int, c: int, h: Vec3I) -> int {
    tdiv(abs_spec(a) * h.x + abs_spec(b) * h.y + abs_spec(c) * h.z, FIX_ONE as int)
}

/// The world-space bounding box of a box with half extents `half`
/// placed by `t`: the center is the translation and each world-axis
/// half-extent is the absolute rotation row applied to `half`.
pub open spec fn aabb_of_box(half: Vec3I, t: Transform) -> Aabb {
    let hx = abs_row_dot(t.rotation.xx as int, t.rotation.xy as int, t.rotation.xz as int, half);
    let hy = abs_row_dot(t.rotation.yx as int, t.rotation.yy as int, t.rotation.yz as int, half);
    let hz = abs_row_dot(t.rotation.zx as int, t.rotation.zy as int, t.rotation.zz as int, half);
    Aabb {
        min: Vec3I {
            x: (t.translation.x - hx) as i64,
            y: (t.translation.y - hy) as i64,
            z: (t.translation.z - hz) as i64,
        },
        max: Vec3I {
            x: (t.translation.x + hx) as i64,
            y: (t.translation.y + hy) as i64,
            z: (t.translation.z + hz) as i64,
        },
    }
}

proof fn lemma_corner_axis(a: int, b: int, c: int, half: Vec3I, sx: int, sy: int, sz: int)
    requires
        0 <= half.x <= COORD_LIMIT as int,
        0 <= half.y <= COORD_LIMIT as int,
        0 <= half.z <= COORD_LIMIT as int,
        -(FIX_ONE as int) <= a <= FIX_ONE as int,
        -(FIX_ONE as int) <= b <= FIX_ONE as int,
        -(FIX_ONE as int) <= c <= FIX_ONE as int,
        sx == 1 || sx == -1,
        sy == 1 || sy == -1,
        sz == 1 || sz == -1,
    ensures
        ({
            let corner = Vec3I {
                x: (sx * half.x) as i64,
                y: (sy * half.y) as i64,
                z: (sz * half.z) as i64,
            };
            -abs_row_dot(a, b, c, half) <= row_dot(a, b, c, corner)
                <= abs_row_dot(a, b, c, half)
        }),
{
    let corner = Vec3I {
        x: (sx * half.x) as i64,
        y: (sy * half.y) as i64,
        z: (sz * half.z) as i64,
    };
    if sx == 1 {
        assert(sx * (half.x as int) == half.x as int) by (nonlinear_arith)
            requires
                sx == 1;
    } else {
        assert(sx * (half.x as int) == -(half.x as int)) by (nonlinear_arith)
            requires
                sx == -1;
    }
    if sy == 1 {
        assert(sy * (half.y as int) == half.y as int) by (nonlinear_arith)
            requires
                sy == 1;
    } else {
        assert(sy * (half.y as int) == -(half.y as int)) by (nonlinear_arith)
            requires
                sy == -1;
    }
    if sz == 1 {
        assert(sz * (half.z as int) == half.z as int) by (nonlinear_arith)
            requires
                sz == 1;
    } else {
        assert(sz * (half.z as int) == -(half.z as int)) by (nonlinear_arith)
            requires
                sz == -1;
    }
    assert(corner.x as int == sx * (half.x as int));
    assert(corner.y as int == sy * (half.y as int));
    assert(corner.z as int == sz * (half.z as int));
    let s = a * (corner.x as int) + b * (corner.y as int) + c * (corner.z as int);
    let amag = abs_spec(a) * half.x + abs_spec(b) * half.y + abs_spec(c) * half.z;
    assert(-(abs_spec(a) * (half.x as int)) <= a * (sx * (half.x as int))
        <= abs_spec(a) * (half.x as int)) by (nonlinear_arith)
        requires
            0 <= half.x as int,
            sx == 1 || sx == -1;
    assert(-(abs_spec(b) * (half.y as int)) <= b * (sy * (half.y as int))
        <= abs_spec(b) * (half.y as int)) by (nonlinear_arith)
        requires
            0 <= half.y as int,
            sy == 1 || sy == -1;
    assert(-(abs_spec(c) * (half.z as int)) <= c * (sz * (half.z as int))
        <= abs_spec(c) * (half.z as int)) by (nonlinear_arith)
        requires
            0 <= half.z as int,
            sz == 1 || sz == -1;
    assert(-amag <= s <= amag);
    assert(amag >= 0) by {
        lemma_mul_bound(abs_spec(a), half.x as int, FIX_ONE as int, COORD_LIMIT as int);
        lemma_mul_bound(abs_spec(b), half.y as int, FIX_ONE as int, COORD_LIMIT as int);
        lemma_mul_bound(abs_spec(c), half.z as int, FIX_ONE as int, COORD_LIMIT as int);
    }
    crate::fixed::lemma_tdiv_bound(s, FIX_ONE as int, amag);
}

/// The cached volume really bounds the placed box: every corner of the
/// box, rotated and translated by the transform, lies inside the
/// volume that `aabb_of_box` computes for it.
pub proof fn lemma_aabb_contains_corners(half: Vec3I, t: Transform, sx: int, sy: int, sz: int)
    requires
        transform_wf(t),
        0 <= half.x <= COORD_LIMIT as int,
        0 <= half.y <= COORD_LIMIT as int,
        0 <= half.z <= COORD_LIMIT as int,
        sx == 1 || sx == -1,
        sy == 1 || sy == -1,
        sz == 1 || sz == -1,
    ensures
        ({
            let corner = Vec3I {
                x: (sx * half.x) as i64,
                y: (sy * half.y) as i64,
                z: (sz * half.z) as i64,
            };
            let w = rot_apply_spec(t.rotation, corner);
            let b = aabb_of_box(half, t);
            &&& b.min.x <= t.translation.x + w.x <= b.max.x
            &&& b.min.y <= t.translation.y + w.y <= b.max.y
            &&& b.min.z <= t.translation.z + w.z <= b.max.z
        }),
{
    let corner = Vec3I {
        x: (sx * half.x) as i64,
        y: (sy * half.y) as i64,
        z: (sz * half.z) as i64,
    };
    let r = t.rotation;
    lemma_corner_axis(r.xx as int, r.xy as int, r.xz as int, half, sx, sy, sz);
    lemma_corner_axis(r.yx as int, r.yy as int, r.yz as int, half, sx, sy, sz);
    lemma_corner_axis(r.zx as int, r.zy as int, r.zz as int, half, sx, sy, sz);
    lemma_abs_row_dot_bounds(r.xx as int, r.xy as int, r.xz as int, half);
    lemma_abs_row_dot_bounds(r.yx as int, r.yy as int, r.yz as int, half);
    lemma_abs_row_dot_bounds(r.zx as int, r.zy as int, r.zz as int, half);
}

proof fn lemma_abs_row_dot_bounds(a: int, b: int, c: int, half: Vec3I)
    requires
        0 <= half.x <= COORD_LIMIT as int,
        0 <= half.y <= COORD_LIMIT as int,
        0 <= half.z <= COORD_LIMIT as int,
        -(FIX_ONE as int) <= a <= FIX_ONE as int,
        -(FIX_ONE as int) <= b <= FIX_ONE as int,
        -(FIX_ONE as int) <= c <= FIX_ONE as int,
    ensures
        0 <= abs_row_dot(a, b, c, half) <= 3 * (COORD_LIMIT as int),
        ({
            let corner_mag = abs_spec(a) * half.x + abs_spec(b) * half.y + abs_spec(c) * half.z;
            abs_row_dot(a, b, c, half) == corner_mag / (FIX_ONE as int)
        }),
{
    let amag = abs_spec(a) * half.x + abs_spec(b) * half.y + abs_spec(c) * half.z;
    lemma_mul_bound(abs_spec(a), half.x as int, FIX_ONE as int, COORD_LIMIT as int);
    lemma_mul_bound(abs_spec(b), half.y as int, FIX_ONE as int, COORD_LIMIT as int);
    lemma_mul_bound(abs_spec(c), half.z as int, FIX_ONE as int, COORD_LIMIT as int);
    crate::fixed::lemma_tdiv_bound(amag, FIX_ONE as int, 3 * (FIX_ONE as int) * (COORD_LIMIT as int));
    assert(3 * (FIX_ONE as int) * (COORD_LIMIT as int) / (FIX_ONE as int)
        == 3 * (COORD_LIMIT as int)) by (nonlinear_arith);
    vstd::arithmetic::div_mod::lemma_div_pos_is_pos(amag, FIX_ONE as int);
}

proof fn lemma_mul_bound(a: int, b: int, ca: int, cb: int)
    requires
        0 <= a <= ca,
        0 <= b <= cb,
    ensures
        0 <= a * b <= ca * cb,
{
    assert(0 <= a * b <= ca * cb) by (nonlinear_arith)
        requires
            0 <= a <= ca,
            0 <= b <= cb;
}

fn abs_i64(v: i64) -> (r: i64)
    requires
        v > i64::MIN,
    ensures
        r == abs_spec(v as int),
{
    if v >= 0 {
        v
    } else {
        -v
    }
}

/// The rotated half-extent of a box along one world axis, from one row
/// `(a, b, c)` of the rotation matrix.
fn abs_row_dot_exec(a: i64, b: i64, c: i64, half: &Vec3I) -> (r: i64)
    requires
        -(FIX_ONE as int) <= a <= FIX_ONE as int,
        -(FIX_ONE as int) <= b <= FIX_ONE as int,
        -(FIX_ONE as int) <= c <= FIX_ONE as int,
        0 <= half.x <= COORD_LIMIT as int,
        0 <= half.y <= COORD_LIMIT as int,
        0 <= half.z <= COORD_LIMIT as int,
    ensures
        r == abs_row_dot(a as int, b as int, c as int, *half),
        0 <= r <= 3 * (COORD_LIMIT as int),
{
    let aa: i64 = abs_i64(a);
    let ab: i64 = abs_i64(b);
    let ac: i64 = abs_i64(c);
    proof {
        lemma_mul_bound(aa as int, half.x as int, FIX_ONE as int, COORD_LIMIT as int);
        lemma_mul_bound(ab as int, half.y as int, FIX_ONE as int, COORD_LIMIT as int);
        lemma_mul_bound(ac as int, half.z as int, FIX_ONE as int, COORD_LIMIT as int);
    }
    let s: i64 = aa * half.x + ab * half.y + ac * half.z;
    let q: i64 = div_trunc(s, FIX_ONE);
    proof {
        crate::fixed::lemma_tdiv_magnitude(s as int, FIX_ONE as int);
        assert(3 * (FIX_ONE as int) * (COORD_LIMIT as int) / (FIX_ONE as int)
            == 3 * (COORD_LIMIT as int)) by (nonlinear_arith);
        vstd::arithmetic::div_mod::lemma_div_is_ordered(
            s as int, 3 * (FIX_ONE as int) * (COORD_LIMIT as int), FIX_ONE as int);
    }
    q
}

/// One row of a rotation matrix applied to a vector, scaled back to
/// fixed point.
pub open spec fn row_dot(a: int, b: int, c: int, v: Vec3I) -> int {
    tdiv(a * v.x + b * v.y + c * v.z, FIX_ONE as int)
}

/// A rotation matrix applied to a vector.
pub open spec fn rot_apply_spec(r: RotMat, v: Vec3I) -> Vec3I {
    Vec3I {
        x: row_dot(r.xx as int, r.xy as int, r.xz as int, v) as i64,
        y: row_dot(r.yx as int, r.yy as int, r.yz as int, v) as i64,
        z: row_dot(r.zx as int, r.zy as int, r.zz as int, v) as i64,
    }
}

fn row_dot_exec(a: i64, b: i64, c: i64, v: &Vec3I) -> (r: i64)
    requires
        -(FIX_ONE as int) <= a <= FIX_ONE as int,
        -(FIX_ONE as int) <= b <= FIX_ONE as int,
        -(FIX_ONE as int) <= c <= FIX_ONE as int,
        -2 * (COORD_LIMIT as int) <= v.x <= 2 * (COORD_LIMIT as int),
        -2 * (COORD_LIMIT as int) <= v.y <= 2 * (COORD_LIMIT as int),
        -2 * (COORD_LIMIT as int) <= v.z <= 2 * (COORD_LIMIT as int),
    ensures
        r == row_dot(a as int, b as int, c as int, *v),
        -6 * (COORD_LIMIT as int) <= r <= 6 * (COORD_LIMIT as int),
        (-(COORD_LIMIT as int) <= v.x <= COORD_LIMIT as int
            && -(COORD_LIMIT as int) <= v.y <= COORD_LIMIT as int
            && -(COORD_LIMIT as int) <= v.z <= COORD_LIMIT as int)
            ==> -3 * (COORD_LIMIT as int) <= r <= 3 * (COORD_LIMIT as int),
{
    proof {
        lemma_mul_mag_bound(a as int, v.x as int, FIX_ONE as int, 2 * (COORD_LIMIT as int));
        lemma_mul_mag_bound(b as int, v.y as int, FIX_ONE as int, 2 * (COORD_LIMIT as int));
        lemma_mul_mag_bound(c as int, v.z as int, FIX_ONE as int, 2 * (COORD_LIMIT as int));
    }
    let s: i64 = a * v.x + b * v.y + c * v.z;
    let q: i64 = div_trunc(s, FIX_ONE);
    proof {
        assert(6 * (FIX_ONE as int) * (COORD_LIMIT as int) / (FIX_ONE as int)
            == 6 * (COORD_LIMIT as int)) by (nonlinear_arith);
        crate::fixed::lemma_tdiv_bound(
            s as int, FIX_ONE as int, 6 * (FIX_ONE as int) * (COORD_LIMIT as int));
        if -(COORD_LIMIT as int) <= v.x <= COORD_LIMIT as int
            && -(COORD_LIMIT as int) <= v.y <= COORD_LIMIT as int
            && -(COORD_LIMIT as int) <= v.z <= COORD_LIMIT as int {
            lemma_mul_mag_bound(a as int, v.x as int, FIX_ONE as int, COORD_LIMIT as int);
            lemma_mul_mag_bound(b as int, v.y as int, FIX_ONE as int, COORD_LIMIT as int);
            lemma_mul_mag_bound(c as int, v.z as int, FIX_ONE as int, COORD_LIMIT as int);
            assert(3 * (FIX_ONE as int) * (COORD_LIMIT as int) / (FIX_ONE as int)
                == 3 * (COORD_LIMIT as int)) by (nonlinear_arith);
            crate::fixed::lemma_tdiv_bound(
                s as int, FIX_ONE as int, 3 * (FIX_ONE as int) * (COORD_LIMIT as int));
        }
    }
    q
}

/// Apply a rotation to a vector whose components stay within twice the
/// coordinate limit.
pub fn rot_apply(r: &RotMat, v: &Vec3I) -> (w: Vec3I)
    requires
        rot_wf(*r),
        -2 * (COORD_LIMIT as int) <= v.x <= 2 * (COORD_LIMIT as int),
        -2 * (COORD_LIMIT as int) <= v.y <= 2 * (COORD_LIMIT as int),
        -2 * (COORD_LIMIT as int) <= v.z <= 2 * (COORD_LIMIT as int),
    ensures
        w == rot_apply_spec(*r, *v),
        -6 * (COORD_LIMIT as int) <= w.x <= 6 * (COORD_LIMIT as int),
        -6 * (COORD_LIMIT as int) <= w.y <= 6 * (COORD_LIMIT as int),
        -6 * (COORD_LIMIT as int) <= w.z <= 6 * (COORD_LIMIT as int),
        (-(COORD_LIMIT as int) <= v.x <= COORD_LIMIT as int
            && -(COORD_LIMIT as int) <= v.y <= COORD_LIMIT as int
            && -(COORD_LIMIT as int) <= v.z <= COORD_LIMIT as int)
            ==> (-3 * (COORD_LIMIT as int) <= w.x <= 3 * (COORD_LIMIT as int)
                && -3 * (COORD_LIMIT as int) <= w.y <= 3 * (COORD_LIMIT as int)
                && -3 * (COORD_LIMIT as int) <= w.z <= 3 * (COORD_LIMIT as int)),
{
    Vec3I {
        x: row_dot_exec(r.xx, r.xy, r.xz, v),
        y: row_dot_exec(r.yx, r.yy, r.yz, v),
        z: row_dot_exec(r.zx, r.zy, r.zz, v),
    }
}

proof fn lemma_mul_mag_bound(a: int, b: int, ca: int, cb: int)
    requires
        -ca <= a <= ca,
        -cb <= b <= cb,
        ca >= 0,
        cb >= 0,
    ensures
        -(ca * cb) <= a * b <= ca * cb,
{
    assert(-(ca * cb) <= a * b <= ca * cb) by (nonlinear_arith)
        requires
            -ca <= a <= ca,
            -cb <= b <= cb,
            ca >= 0,
            cb >= 0;
}

/// Recompute the world-space bounding box of a box shape with the given
/// nonnegative half extents under placement `t`.
pub fn box_aabb(half: &Vec3I, t: &Transform) -> (v: Aabb)
    requires
        transform_wf(*t),
        0 <= half.x <= COORD_LIMIT as int,
        0 <= half.y <= COORD_LIMIT as int,
        0 <= half.z <= COORD_LIMIT as int,
    ensures
        v == aabb_of_box(*half, *t),
        aabb_in_range(v),
        v.min.x <= v.max.x && v.min.y <= v.max.y && v.min.z <= v.max.z,
{
    let hx: i64 = abs_row_dot_exec(t.rotation.xx, t.rotation.xy, t.rotation.xz, half);
    let hy: i64 = abs_row_dot_exec(t.rotation.yx, t.rotation.yy, t.rotation.yz, half);
    let hz: i64 = abs_row_dot_exec(t.rotation.zx, t.rotation.zy, t.rotation.zz, half);
    Aabb {
        min: Vec3I {
            x: t.translation.x - hx,
            y: t.translation.y - hy,
            z: t.translation.z - hz,
        },
        max: Vec3I {
            x: t.translation.x + hx,
            y: t.translation.y + hy,
            z: t.translation.z + hz,
        },
    }
}

} // verus!
