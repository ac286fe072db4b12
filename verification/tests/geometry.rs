use ray_pick::camera::{Camera, CameraSettings, Projection, ray_from_screenspace,
    screen_to_world};
use ray_pick::keyboard::{as_key, as_key_code, key_text, Key, KeyCode};
use ray_pick::math::{box_aabb, RotMat, Transform, Vec2I, Vec3I};
use ray_pick::pick::ray_aabb_hit;
use ray_pick::texture::uv_debug_texture_data;

fn identity_rot() -> RotMat {
    RotMat {
        xx: 1000, xy: 0, xz: 0,
        yx: 0, yy: 1000, yz: 0,
        zx: 0, zy: 0, zz: 1000,
    }
}

fn face_plus_z() -> RotMat {
    RotMat {
        xx: -1000, xy: 0, xz: 0,
        yx: 0, yy: 1000, yz: 0,
        zx: 0, zy: 0, zz: -1000,
    }
}

fn default_settings() -> CameraSettings {
    CameraSettings::default()
}

fn test_camera() -> Camera {
    Camera {
        viewport_offset: Vec2I { x: 0, y: 0 },
        viewport_size: Vec2I { x: 200_000, y: 200_000 },
        projection: Projection::Orthographic { scale: 1000 },
        transform: Transform {
            translation: Vec3I { x: 0, y: 0, z: 0 },
            rotation: face_plus_z(),
        },
    }
}

#[test]
fn ray_through_center_hits() {
    let o = Vec3I { x: 0, y: 0, z: 0 };
    let d = Vec3I { x: 0, y: 0, z: 1000 };
    let b = ray_pick::math::Aabb {
        min: Vec3I { x: -1000, y: -1000, z: 4000 },
        max: Vec3I { x: 1000, y: 1000, z: 6000 },
    };
    assert!(ray_aabb_hit(&o, &d, &b));
}

#[test]
fn ray_beyond_cutoff_misses() {
    let o = Vec3I { x: 0, y: 0, z: 0 };
    let d = Vec3I { x: 0, y: 0, z: 1000 };
    // The infinite ray passes through this box, but its nearest point
    // is forty units away, beyond the thirty-unit pick cutoff.
    let b = ray_pick::math::Aabb {
        min: Vec3I { x: -1000, y: -1000, z: 40_000 },
        max: Vec3I { x: 1000, y: 1000, z: 42_000 },
    };
    assert!(!ray_aabb_hit(&o, &d, &b));
    // The same box at twenty-nine units is picked.
    let b = ray_pick::math::Aabb {
        min: Vec3I { x: -1000, y: -1000, z: 29_000 },
        max: Vec3I { x: 1000, y: 1000, z: 31_000 },
    };
    assert!(ray_aabb_hit(&o, &d, &b));
}

#[test]
fn ray_behind_origin_misses() {
    let o = Vec3I { x: 0, y: 0, z: 0 };
    let d = Vec3I { x: 0, y: 0, z: 1000 };
    let b = ray_pick::math::Aabb {
        min: Vec3I { x: -1000, y: -1000, z: -6000 },
        max: Vec3I { x: 1000, y: 1000, z: -4000 },
    };
    assert!(!ray_aabb_hit(&o, &d, &b));
    // Flipping the direction picks it up.
    let d = Vec3I { x: 0, y: 0, z: -1000 };
    assert!(ray_aabb_hit(&o, &d, &b));
}

#[test]
fn sideways_ray_respects_slabs() {
    let o = Vec3I { x: -5000, y: 0, z: 5000 };
    let d = Vec3I { x: 1000, y: 0, z: 0 };
    let b = ray_pick::math::Aabb {
        min: Vec3I { x: -1000, y: -1000, z: 4000 },
        max: Vec3I { x: 1000, y: 1000, z: 6000 },
    };
    assert!(ray_aabb_hit(&o, &d, &b));
    // Shift the ray above the box: the y slab rejects it.
    let o = Vec3I { x: -5000, y: 2000, z: 5000 };
    assert!(!ray_aabb_hit(&o, &d, &b));
}

#[test]
fn box_aabb_of_rotated_box() {
    // A half turn around Y leaves an axis-aligned box's volume
    // unchanged around its center.
    let t = Transform {
        translation: Vec3I { x: 100, y: 200, z: 300 },
        rotation: face_plus_z(),
    };
    let v = box_aabb(&Vec3I { x: 1000, y: 2000, z: 500 }, &t);
    assert_eq!(v.min, Vec3I { x: -900, y: -1800, z: -200 });
    assert_eq!(v.max, Vec3I { x: 1100, y: 2200, z: 800 });
    // A quarter turn around Z swaps the x and y half extents.
    let quarter_z = RotMat {
        xx: 0, xy: -1000, xz: 0,
        yx: 1000, yy: 0, yz: 0,
        zx: 0, zy: 0, zz: 1000,
    };
    let t = Transform {
        translation: Vec3I { x: 0, y: 0, z: 0 },
        rotation: quarter_z,
    };
    let v = box_aabb(&Vec3I { x: 1000, y: 2000, z: 500 }, &t);
    assert_eq!(v.min, Vec3I { x: -2000, y: -1000, z: -500 });
    assert_eq!(v.max, Vec3I { x: 2000, y: 1000, z: 500 });
}

#[test]
fn cast_center_and_offset_rays() {
    let cam = test_camera();
    let s = default_settings();
    // Viewport center: the ray starts at the camera and fires along
    // +Z.
    let r = ray_from_screenspace(Vec2I { x: 100_000, y: 100_000 }, &cam, &s).unwrap();
    assert_eq!(r.origin, Vec3I { x: 0, y: 0, z: 0 });
    assert_eq!(r.dir, Vec3I { x: 0, y: 0, z: 1000 });
    // Ten pixels right of center: a quarter world unit, mirrored by
    // this camera's half-turn.
    let r = ray_from_screenspace(Vec2I { x: 110_000, y: 100_000 }, &cam, &s).unwrap();
    assert_eq!(r.origin, Vec3I { x: -250, y: 0, z: 0 });
    // Outside the viewport: no ray, no pick this tick.
    assert!(ray_from_screenspace(Vec2I { x: 250_000, y: 100_000 }, &cam, &s).is_none());
}

#[test]
fn cast_scales_with_zoom() {
    let mut cam = test_camera();
    cam.projection = Projection::Orthographic { scale: 2000 };
    let s = default_settings();
    // Doubling the scale doubles the world offset of the same pixel.
    let r = ray_from_screenspace(Vec2I { x: 110_000, y: 100_000 }, &cam, &s).unwrap();
    assert_eq!(r.origin, Vec3I { x: -500, y: 0, z: 0 });
}

#[test]
fn other_projection_casts_no_ray() {
    let mut cam = test_camera();
    cam.projection = Projection::Other;
    let s = default_settings();
    assert!(ray_from_screenspace(Vec2I { x: 100_000, y: 100_000 }, &cam, &s).is_none());
}

#[test]
fn perspective_ray_fires_through_pixel() {
    let mut cam = test_camera();
    cam.projection = Projection::Perspective { fov: 785, focal: 100_000 };
    let s = default_settings();
    let r = ray_from_screenspace(Vec2I { x: 100_000, y: 100_000 }, &cam, &s).unwrap();
    assert_eq!(r.origin, Vec3I { x: 0, y: 0, z: 0 });
    // The center ray runs along the camera's forward axis (+Z here).
    assert_eq!(r.dir, Vec3I { x: 0, y: 0, z: 200_000 });
    let r = ray_from_screenspace(Vec2I { x: 110_000, y: 100_000 }, &cam, &s).unwrap();
    // Ten pixels off center tilt the direction by the doubled pixel
    // offset, mirrored in x.
    assert_eq!(r.dir, Vec3I { x: -20_000, y: 0, z: 200_000 });
}

#[test]
fn screen_to_world_meets_drag_plane() {
    let cam = test_camera();
    let s = default_settings();
    // The drag plane sits at z = 2; the center ray meets it straight
    // ahead.
    let p = screen_to_world(Vec2I { x: 100_000, y: 100_000 }, &cam, &s).unwrap();
    assert_eq!(p, Vec3I { x: 0, y: 0, z: 2000 });
    let p = screen_to_world(Vec2I { x: 110_000, y: 100_000 }, &cam, &s).unwrap();
    assert_eq!(p, Vec3I { x: -250, y: 0, z: 2000 });
}

#[test]
fn key_resolution_table() {
    assert_eq!(as_key("KeyA"), Key::Character('a'));
    assert_eq!(as_key_code("KeyA"), KeyCode::Letter('A'));
    assert_eq!(as_key("Digit7"), Key::Character('7'));
    assert_eq!(as_key_code("Digit7"), KeyCode::Digit('7'));
    assert_eq!(as_key("Space"), Key::Character(' '));
    // Enter aliases: the numpad variant keeps its physical identity
    // but shares the semantic one.
    assert_eq!(as_key("NumpadEnter"), Key::Enter);
    assert_eq!(as_key_code("NumpadEnter"), KeyCode::NumpadEnter);
    assert_eq!(as_key("Enter"), Key::Enter);
    // The legacy name aliases it for both identities.
    assert_eq!(as_key("Return"), Key::Enter);
    assert_eq!(as_key_code("Return"), KeyCode::Enter);
    // Vendor modifier names alias the generic physical identity;
    // left/right collapse semantically.
    assert_eq!(as_key("OSLeft"), Key::Meta);
    assert_eq!(as_key_code("OSLeft"), KeyCode::MetaLeft);
    assert_eq!(as_key("MetaRight"), Key::Meta);
    assert_eq!(as_key("ShiftLeft"), Key::Shift);
    assert_eq!(as_key("ShiftRight"), Key::Shift);
    assert_eq!(as_key_code("ShiftRight"), KeyCode::ShiftRight);
    // Anything absent from the table is explicitly unidentified.
    assert_eq!(as_key("Fn"), Key::Unidentified);
    assert_eq!(as_key_code("Gamepad0"), KeyCode::Unidentified);
    assert_eq!(as_key(""), Key::Unidentified);
    // Near misses of the letter scheme do not resolve as letters.
    assert_eq!(as_key("Keya"), Key::Unidentified);
    assert_eq!(as_key("KeyAA"), Key::Unidentified);
}

#[test]
fn key_text_payloads() {
    assert_eq!(key_text(&Key::Character('x')), Some('x'));
    assert_eq!(key_text(&Key::Tab), Some('\t'));
    assert_eq!(key_text(&Key::Enter), Some('\r'));
    assert_eq!(key_text(&Key::Shift), None);
    assert_eq!(key_text(&Key::Unidentified), None);
}

#[test]
fn texture_pattern_rotates_per_row() {
    let data = uv_debug_texture_data();
    assert_eq!(data.len(), 256);
    // Row zero starts with the palette's first pixel.
    assert_eq!(&data[0..4], &[255, 102, 159, 255]);
    // Row one is the palette rotated right by one pixel: it starts
    // with the palette's last pixel.
    assert_eq!(&data[32..36], &[236, 102, 255, 255]);
    // And continues with the palette's first pixel.
    assert_eq!(&data[36..40], &[255, 102, 159, 255]);
    // Row seven begins with the palette's second pixel.
    assert_eq!(&data[224..228], &[255, 159, 102, 255]);
}
