use ray_pick::camera::{Camera, Projection};
use ray_pick::math::{RotMat, Transform, Vec2I, Vec3I};
use ray_pick::state::{FrameAction, MouseButton, TickInput, WorkerApp, frame_decision,
    mouse_button, mouse_scroll_unit, MouseScrollUnit};

/// A rotation turning the camera to look down +Z (half turn around Y).
fn face_plus_z() -> RotMat {
    RotMat {
        xx: -1000, xy: 0, xz: 0,
        yx: 0, yy: 1000, yz: 0,
        zx: 0, zy: 0, zz: -1000,
    }
}

fn identity_rot() -> RotMat {
    RotMat {
        xx: 1000, xy: 0, xz: 0,
        yx: 0, yy: 1000, yz: 0,
        zx: 0, zy: 0, zz: 1000,
    }
}

/// An orthographic camera at the origin looking down +Z over a
/// 200 by 200 physical-pixel viewport.
fn test_camera() -> Camera {
    Camera {
        viewport_offset: Vec2I { x: 0, y: 0 },
        viewport_size: Vec2I { x: 200_000, y: 200_000 },
        projection: Projection::Orthographic { scale: 1000 },
        transform: Transform {
            translation: Vec3I { x: 0, y: 0, z: 0 },
            rotation: face_plus_z(),
        },
    }
}

fn moved(x: i64, y: i64) -> TickInput {
    TickInput {
        cursor_moved: Some(Vec2I { x, y }),
        mouse_pressed: false,
        mouse_released: false,
        wheel_y: 0,
    }
}

fn pressed() -> TickInput {
    TickInput {
        cursor_moved: None,
        mouse_pressed: true,
        mouse_released: false,
        wheel_y: 0,
    }
}

fn released() -> TickInput {
    TickInput {
        cursor_moved: None,
        mouse_pressed: false,
        mouse_released: true,
        wheel_y: 0,
    }
}

fn quiet() -> TickInput {
    TickInput {
        cursor_moved: None,
        mouse_pressed: false,
        mouse_released: false,
        wheel_y: 0,
    }
}

#[test]
fn volume_cache_is_stable_without_changes() {
    let mut app = WorkerApp::new(1000);
    app.set_camera(test_camera());
    app.spawn_object(1, Vec3I { x: 1000, y: 1000, z: 1000 },
        Transform { translation: Vec3I { x: 500, y: -200, z: 5000 }, rotation: identity_rot() });
    app.tick(quiet());
    let vol1 = app.objects[0].volume;
    assert_eq!(vol1.0.min, Vec3I { x: -500, y: -1200, z: 4000 });
    assert_eq!(vol1.0.max, Vec3I { x: 1500, y: 800, z: 6000 });
    assert!(!app.objects[0].stale);
    // A tick with no shape or transform change keeps the cache
    // bit-identical.
    app.tick(quiet());
    assert_eq!(app.objects[0].volume, vol1);
    // A transform change marks the cache stale and the next tick
    // recomputes it.
    app.set_transform(0, Transform {
        translation: Vec3I { x: 0, y: 0, z: 5000 },
        rotation: identity_rot(),
    });
    assert!(app.objects[0].stale);
    app.tick(quiet());
    assert_eq!(app.objects[0].volume.0.min, Vec3I { x: -1000, y: -1000, z: 4000 });
    assert_eq!(app.objects[0].volume.0.max, Vec3I { x: 1000, y: 1000, z: 6000 });
}

#[test]
fn hover_mirrors_latest_resolution() {
    let mut app = WorkerApp::new(1000);
    app.set_camera(test_camera());
    // A unit box five units straight ahead of the viewport center.
    app.spawn_object(9, Vec3I { x: 1000, y: 1000, z: 1000 },
        Transform { translation: Vec3I { x: 0, y: 0, z: 5000 }, rotation: identity_rot() });
    // Cursor at the viewport center: the ray passes through the box
    // center, so the object is hovered and reported.
    let pick = app.tick(moved(100_000, 100_000));
    assert!(app.objects[0].hovered);
    assert_eq!(pick, Some(vec![9]));
    // Cursor in the far corner: zero hits, so the previously hovered
    // object loses the flag and the notification is empty.
    let pick = app.tick(moved(0, 0));
    assert!(!app.objects[0].hovered);
    assert_eq!(pick, Some(vec![]));
}

#[test]
fn all_simultaneous_hits_are_reported() {
    let mut app = WorkerApp::new(1000);
    app.set_camera(test_camera());
    // Two boxes stacked along the ray: multi-object hover reports both,
    // in object order, not only the nearest.
    app.spawn_object(11, Vec3I { x: 1000, y: 1000, z: 1000 },
        Transform { translation: Vec3I { x: 0, y: 0, z: 4000 }, rotation: identity_rot() });
    app.spawn_object(12, Vec3I { x: 1000, y: 1000, z: 1000 },
        Transform { translation: Vec3I { x: 0, y: 0, z: 9000 }, rotation: identity_rot() });
    let pick = app.tick(moved(100_000, 100_000));
    assert_eq!(pick, Some(vec![11, 12]));
    assert!(app.objects[0].hovered);
    assert!(app.objects[1].hovered);
}

#[test]
fn cursor_outside_viewport_is_a_noop() {
    let mut app = WorkerApp::new(1000);
    app.set_camera(test_camera());
    app.spawn_object(13, Vec3I { x: 1000, y: 1000, z: 1000 },
        Transform { translation: Vec3I { x: 0, y: 0, z: 5000 }, rotation: identity_rot() });
    app.tick(moved(100_000, 100_000));
    assert!(app.objects[0].hovered);
    // A move outside the camera's viewport produces no ray: the hover
    // stage degrades to a no-op for the tick — flags keep their last
    // resolution and nothing is posted.
    let pick = app.tick(moved(250_000, 100_000));
    assert_eq!(pick, None);
    assert!(app.objects[0].hovered);
}

#[test]
fn no_camera_means_no_pick_message() {
    let mut app = WorkerApp::new(1000);
    app.spawn_object(1, Vec3I { x: 1000, y: 1000, z: 1000 },
        Transform { translation: Vec3I { x: 0, y: 0, z: 5000 }, rotation: identity_rot() });
    let pick = app.tick(moved(100_000, 100_000));
    assert_eq!(pick, None);
    assert!(!app.objects[0].hovered);
}

#[test]
fn pick_cutoff_excludes_far_objects() {
    let mut app = WorkerApp::new(1000);
    app.set_camera(test_camera());
    // Fifty units ahead: the infinite ray intersects it, but it is
    // beyond the thirty-unit cutoff.
    app.spawn_object(2, Vec3I { x: 1000, y: 1000, z: 1000 },
        Transform { translation: Vec3I { x: 0, y: 0, z: 50_000 }, rotation: identity_rot() });
    // Twenty units ahead: within the cutoff.
    app.spawn_object(3, Vec3I { x: 1000, y: 1000, z: 1000 },
        Transform { translation: Vec3I { x: 0, y: 0, z: 20_000 }, rotation: identity_rot() });
    let pick = app.tick(moved(100_000, 100_000));
    assert_eq!(pick, Some(vec![3]));
    assert!(!app.objects[0].hovered);
    assert!(app.objects[1].hovered);
}

#[test]
fn select_is_idempotent_and_single_generation() {
    let mut app = WorkerApp::new(1000);
    app.set_camera(test_camera());
    app.spawn_object(4, Vec3I { x: 1000, y: 1000, z: 1000 },
        Transform { translation: Vec3I { x: 0, y: 0, z: 5000 }, rotation: identity_rot() });
    app.spawn_object(5, Vec3I { x: 1000, y: 1000, z: 1000 },
        Transform { translation: Vec3I { x: 20_000, y: 0, z: 5000 }, rotation: identity_rot() });
    app.tick(moved(100_000, 100_000));
    assert!(app.objects[0].hovered);
    assert!(!app.objects[1].hovered);
    // First click selects exactly the hovered set.
    app.tick(pressed());
    assert!(app.objects[0].selected);
    assert!(!app.objects[1].selected);
    let first: Vec<bool> = app.objects.iter().map(|p| p.selected).collect();
    // A second click with the same hover set yields the same selection.
    app.tick(released());
    app.tick(pressed());
    let second: Vec<bool> = app.objects.iter().map(|p| p.selected).collect();
    assert_eq!(first, second);
    // A click that hovers nothing clears the selection entirely.
    app.tick(moved(0, 0));
    app.tick(released());
    app.tick(pressed());
    assert!(!app.objects[0].selected);
    assert!(!app.objects[1].selected);
}

#[test]
fn drag_is_delta_based_and_re_anchoring() {
    let mut app = WorkerApp::new(1000);
    app.set_camera(test_camera());
    app.spawn_object(6, Vec3I { x: 1000, y: 1000, z: 1000 },
        Transform { translation: Vec3I { x: 0, y: 0, z: 2000 }, rotation: identity_rot() });
    // Hover the object, press to anchor the drag at (100, 100).
    app.tick(moved(100_000, 100_000));
    assert!(app.objects[0].hovered);
    app.tick(pressed());
    assert_eq!(app.objects[0].drag, Some(Vec2I { x: 100_000, y: 100_000 }));
    // Two cursor moves: 100 -> 110 -> 130 pixels. Each pixel is 1/40
    // world unit here (5 units over 200 px at scale 1), and the world
    // x axis runs opposite the screen's for this camera.
    app.tick(moved(110_000, 100_000));
    assert_eq!(app.objects[0].transform.translation, Vec3I { x: -250, y: 0, z: 2000 });
    assert_eq!(app.objects[0].drag, Some(Vec2I { x: 110_000, y: 100_000 }));
    app.tick(moved(130_000, 100_000));
    // Total translation equals world(C) - world(A): 30 px = 0.75 world
    // units; re-anchoring never double-counts the first delta.
    assert_eq!(app.objects[0].transform.translation, Vec3I { x: -750, y: 0, z: 2000 });
    // Release removes the drag tag unconditionally.
    app.tick(released());
    assert_eq!(app.objects[0].drag, None);
}

#[test]
fn end_to_end_scenario() {
    let mut app = WorkerApp::new(1000);
    app.set_camera(test_camera());
    // A unit-half-extent box centered at the origin, world AABB
    // [(-1,-1,-1),(1,1,1)], camera at the origin looking down +Z.
    app.spawn_object(42, Vec3I { x: 1000, y: 1000, z: 1000 },
        Transform { translation: Vec3I { x: 0, y: 0, z: 0 }, rotation: identity_rot() });
    // Move at offset (100, 100), scale factor 1: a pick message lists
    // the object.
    app.on_mouse_move(100_000, 100_000);
    let pick = app.update();
    assert_eq!(pick, Some(vec![42]));
    assert!(app.objects[0].hovered);
    // Press button 0: the object becomes selected and in drag.
    app.on_mouse_down(0, 100_000, 100_000);
    app.update();
    assert!(app.objects[0].selected);
    assert_eq!(app.objects[0].drag, Some(Vec2I { x: 100_000, y: 100_000 }));
    // Move to (110, 100): the object translates by the world delta on
    // the drag plane (10 px at 1/40 unit per px, mirrored x).
    app.on_mouse_move(110_000, 100_000);
    app.update();
    assert_eq!(app.objects[0].transform.translation, Vec3I { x: -250, y: 0, z: 0 });
    // Release: the drag tag clears, the selection is retained.
    app.on_mouse_up(0);
    app.update();
    assert_eq!(app.objects[0].drag, None);
    assert!(app.objects[0].selected);
}

#[test]
fn zoom_clamps_orthographic_scale() {
    let mut app = WorkerApp::new(1000);
    app.set_camera(test_camera());
    // Scroll down five units: delta 5 * 0.2 = 1.0, multiplier 2.0.
    app.tick(TickInput { cursor_moved: None, mouse_pressed: false, mouse_released: false,
        wheel_y: -5000 });
    match app.camera.unwrap().projection {
        Projection::Orthographic { scale } => assert_eq!(scale, 2000),
        _ => panic!("projection changed kind"),
    }
    // Scroll up five units: multiplier 0.0, clamped to the lower end.
    app.tick(TickInput { cursor_moved: None, mouse_pressed: false, mouse_released: false,
        wheel_y: 5000 });
    match app.camera.unwrap().projection {
        Projection::Orthographic { scale } => assert_eq!(scale, 100),
        _ => panic!("projection changed kind"),
    }
    // No further scrolling up can leave the configured range.
    for _ in 0..20 {
        app.tick(TickInput { cursor_moved: None, mouse_pressed: false, mouse_released: false,
            wheel_y: 100_000 });
        match app.camera.unwrap().projection {
            Projection::Orthographic { scale } => assert!((100..=3_000_000).contains(&scale)),
            _ => panic!("projection changed kind"),
        }
    }
    // And scrolling down hard stops at the upper end.
    for _ in 0..40 {
        app.tick(TickInput { cursor_moved: None, mouse_pressed: false, mouse_released: false,
            wheel_y: -100_000 });
        match app.camera.unwrap().projection {
            Projection::Orthographic { scale } => assert!((100..=3_000_000).contains(&scale)),
            _ => panic!("projection changed kind"),
        }
    }
}

#[test]
fn zoom_clamps_perspective_fov() {
    let mut app = WorkerApp::new(1000);
    let mut cam = test_camera();
    cam.projection = Projection::Perspective { fov: 785, focal: 100_000 };
    app.set_camera(cam);
    // Each scroll of ten units moves the field of view additively by
    // 2.0; the lower clamp holds it at 0.1.
    app.tick(TickInput { cursor_moved: None, mouse_pressed: false, mouse_released: false,
        wheel_y: 10_000 });
    match app.camera.unwrap().projection {
        Projection::Perspective { fov, .. } => assert_eq!(fov, 100),
        _ => panic!("projection changed kind"),
    }
    for _ in 0..30 {
        app.tick(TickInput { cursor_moved: None, mouse_pressed: false, mouse_released: false,
            wheel_y: -1_000_000 });
        match app.camera.unwrap().projection {
            Projection::Perspective { fov, .. } => assert!((100..=3_000_000).contains(&fov)),
            _ => panic!("projection changed kind"),
        }
    }
}

#[test]
fn coordinate_scaling_is_proportional() {
    // Scale factor 2.0 doubles each logical coordinate.
    let app = WorkerApp::new(2000);
    let v = app.to_physical_size(100_000, 50_000);
    assert_eq!(v, Vec2I { x: 200_000, y: 100_000 });
    // Scale factor 1.5 on the same logical point.
    let app = WorkerApp::new(1500);
    let v = app.to_physical_size(100_000, 50_000);
    assert_eq!(v, Vec2I { x: 150_000, y: 75_000 });
    // The same logical move lands on different physical cursor
    // positions under different scale factors, deterministically.
    let mut a1 = WorkerApp::new(1000);
    let mut a2 = WorkerApp::new(2000);
    a1.on_mouse_move(50_000, 50_000);
    a2.on_mouse_move(50_000, 50_000);
    assert_eq!(a1.mailbox.mouse_move, Some(Vec2I { x: 50_000, y: 50_000 }));
    assert_eq!(a2.mailbox.mouse_move, Some(Vec2I { x: 100_000, y: 100_000 }));
}

#[test]
fn mailbox_coalesces_moves_last_write_wins() {
    let mut app = WorkerApp::new(1000);
    app.on_mouse_move(10_000, 10_000);
    app.on_mouse_move(20_000, 20_000);
    app.on_mouse_move(30_000, 40_000);
    assert_eq!(app.mailbox.mouse_move, Some(Vec2I { x: 30_000, y: 40_000 }));
    app.set_camera(test_camera());
    app.update();
    // The tick consumed the snapshot: the cursor took the latest move
    // only and the mailbox is empty again.
    assert_eq!(app.cursor, Vec2I { x: 30_000, y: 40_000 });
    assert_eq!(app.mailbox.mouse_move, None);
}

#[test]
fn mouse_button_mapping() {
    assert_eq!(mouse_button(0), MouseButton::Left);
    assert_eq!(mouse_button(1), MouseButton::Middle);
    assert_eq!(mouse_button(2), MouseButton::Right);
    assert_eq!(mouse_button(3), MouseButton::Back);
    assert_eq!(mouse_button(4), MouseButton::Forward);
    assert_eq!(mouse_button(7), MouseButton::Other(7));
    assert_eq!(mouse_button(-1), MouseButton::Other(65535));
}

#[test]
fn scroll_unit_mapping() {
    assert_eq!(mouse_scroll_unit(1), MouseScrollUnit::Line);
    assert_eq!(mouse_scroll_unit(0), MouseScrollUnit::Pixel);
    assert_eq!(mouse_scroll_unit(2), MouseScrollUnit::Pixel);
}

#[test]
fn non_primary_buttons_are_ignored() {
    let mut app = WorkerApp::new(1000);
    app.on_mouse_down(2, 0, 0);
    assert!(!app.mailbox.mouse_pressed);
    app.on_mouse_down(0, 0, 0);
    assert!(app.mailbox.mouse_pressed);
    app.on_mouse_up(1);
    assert!(!app.mailbox.mouse_released);
    app.on_mouse_up(0);
    assert!(app.mailbox.mouse_released);
}

#[test]
fn frame_decisions() {
    assert_eq!(frame_decision(false, false, false), FrameAction::PollReadiness);
    assert_eq!(frame_decision(false, true, false), FrameAction::NotifyReady);
    assert_eq!(frame_decision(true, false, false), FrameAction::RunTick);
    assert_eq!(frame_decision(true, false, true), FrameAction::Shutdown);
    // During startup no input is processed, whatever the exit flag.
    assert_eq!(frame_decision(false, false, true), FrameAction::PollReadiness);
}

#[test]
fn try_finish_polls_readiness() {
    let mut app = WorkerApp::new(1000);
    assert!(!app.try_finish(false));
    assert!(!app.window_ready);
    assert!(app.try_finish(true));
    assert!(app.window_ready);
}
