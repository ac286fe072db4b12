use ray_pick::bridge::{Message, on_message, parse_mouse_event, parse_key_event,
    parse_wheel_event};
use ray_pick::camera::{Camera, Projection};
use ray_pick::keyboard::{Key, KeyCode};
use ray_pick::math::{RotMat, Transform, Vec2I, Vec3I};
use ray_pick::state::WorkerApp;

fn test_camera() -> Camera {
    Camera {
        viewport_offset: Vec2I { x: 0, y: 0 },
        viewport_size: Vec2I { x: 200_000, y: 200_000 },
        projection: Projection::Orthographic { scale: 1000 },
        transform: Transform {
            translation: Vec3I { x: 0, y: 0, z: 0 },
            rotation: RotMat {
                xx: -1000, xy: 0, xz: 0,
                yx: 0, yy: 1000, yz: 0,
                zx: 0, zy: 0, zz: -1000,
            },
        },
    }
}

#[test]
fn mouse_payload_parses() {
    let d = parse_mouse_event(
        "{\"altKey\":true,\"button\":2,\"buttons\":3,\"clientX\":10,\"clientY\":20,\
         \"ctrlKey\":false,\"metaKey\":false,\"offsetX\":100,\"offsetY\":150,\
         \"pageX\":10,\"pageY\":20,\"screenX\":30,\"screenY\":40,\"shiftKey\":true}");
    assert!(d.alt_key);
    assert!(d.shift_key);
    assert!(!d.ctrl_key);
    assert_eq!(d.button, 2);
    assert_eq!(d.buttons, 3);
    assert_eq!(d.offset_x, 100);
    assert_eq!(d.offset_y, 150);
    assert_eq!(d.client_x, 10);
    assert_eq!(d.screen_y, 40);
}

#[test]
fn malformed_mouse_payload_defaults_to_zero() {
    let d = parse_mouse_event("this is not json");
    assert_eq!(d.button, 0);
    assert_eq!(d.offset_x, 0);
    assert_eq!(d.offset_y, 0);
    assert!(!d.alt_key);
    // Missing fields default on their own; present ones survive.
    let d = parse_mouse_event("{\"offsetX\":7}");
    assert_eq!(d.offset_x, 7);
    assert_eq!(d.offset_y, 0);
    assert_eq!(d.button, 0);
    // A field of the wrong type defaults too.
    let d = parse_mouse_event("{\"offsetX\":\"seven\",\"offsetY\":9}");
    assert_eq!(d.offset_x, 0);
    assert_eq!(d.offset_y, 9);
}

#[test]
fn key_payload_parses() {
    let d = parse_key_event(
        "{\"altKey\":false,\"code\":\"KeyA\",\"ctrlKey\":true,\"isComposing\":false,\
         \"key\":\"a\",\"location\":0,\"metaKey\":false,\"shiftKey\":false,\"repeat\":true}");
    assert_eq!(d.code, "KeyA");
    assert_eq!(d.key, "a");
    assert!(d.ctrl_key);
    assert!(d.repeat);
    let d = parse_key_event("{}");
    assert_eq!(d.code, "");
    assert!(!d.repeat);
}

#[test]
fn wheel_payload_parses() {
    let d = parse_wheel_event("{\"deltaX\":0,\"deltaY\":3,\"deltaZ\":0,\"deltaMode\":1}");
    assert_eq!(d.delta_y, 3);
    assert_eq!(d.delta_mode, 1);
    let d = parse_wheel_event("nonsense");
    assert_eq!(d.delta_y, 0);
}

#[test]
fn message_constructors() {
    let m = Message::pick(vec![3, 9]);
    assert_eq!(m.ty, "pick");
    assert!(m.event.is_none());
    assert_eq!(m.list, Some(vec![3, 9]));
    let m = Message::ready();
    assert_eq!(m.ty, "ready");
    assert!(m.event.is_none());
    assert!(m.list.is_none());
}

#[test]
fn message_dispatch_moves_cursor() {
    let mut app = WorkerApp::new(1000);
    app.set_camera(test_camera());
    let msg = Message {
        ty: "mouse_move".to_string(),
        event: Some("{\"offsetX\":100,\"offsetY\":100}".to_string()),
        list: None,
    };
    on_message(&mut app, &msg);
    // 100 whole pixels at scale 1.0 land at fixed-point 100 px.
    assert_eq!(app.mailbox.mouse_move, Some(Vec2I { x: 100_000, y: 100_000 }));
    app.update();
    assert_eq!(app.cursor, Vec2I { x: 100_000, y: 100_000 });
}

#[test]
fn message_dispatch_buttons_and_wheel() {
    let mut app = WorkerApp::new(1000);
    on_message(&mut app, &Message {
        ty: "mouse_down".to_string(),
        event: Some("{\"button\":0,\"offsetX\":5,\"offsetY\":6}".to_string()),
        list: None,
    });
    assert!(app.mailbox.mouse_pressed);
    on_message(&mut app, &Message {
        ty: "mouse_up".to_string(),
        event: Some("{\"button\":0}".to_string()),
        list: None,
    });
    assert!(app.mailbox.mouse_released);
    on_message(&mut app, &Message {
        ty: "wheel".to_string(),
        event: Some("{\"deltaX\":0,\"deltaY\":3,\"deltaZ\":0,\"deltaMode\":1}".to_string()),
        list: None,
    });
    assert_eq!(app.mailbox.wheel_y, 3000);
}

#[test]
fn unrecognized_messages_are_ignored() {
    let mut app = WorkerApp::new(1000);
    on_message(&mut app, &Message {
        ty: "blockRender".to_string(),
        event: Some("{\"blockTime\":5}".to_string()),
        list: None,
    });
    assert_eq!(app.mailbox.mouse_move, None);
    assert!(!app.mailbox.mouse_pressed);
    assert!(!app.mailbox.mouse_released);
    assert_eq!(app.mailbox.wheel_y, 0);
    // A recognized tag without a payload is ignored too.
    on_message(&mut app, &Message {
        ty: "mouse_move".to_string(),
        event: None,
        list: None,
    });
    assert_eq!(app.mailbox.mouse_move, None);
}

#[test]
fn key_messages_reach_the_mailbox() {
    let mut app = WorkerApp::new(1000);
    on_message(&mut app, &Message {
        ty: "key_down".to_string(),
        event: Some("{\"code\":\"Enter\",\"repeat\":false}".to_string()),
        list: None,
    });
    let ev = app.mailbox.key.unwrap();
    assert_eq!(ev.logical_key, Key::Enter);
    assert_eq!(ev.key_code, KeyCode::Enter);
    assert!(ev.pressed);
    assert_eq!(ev.text, Some('\r'));
    on_message(&mut app, &Message {
        ty: "key_up".to_string(),
        event: Some("{\"code\":\"KeyQ\",\"repeat\":true}".to_string()),
        list: None,
    });
    let ev = app.mailbox.key.unwrap();
    assert_eq!(ev.logical_key, Key::Character('q'));
    assert_eq!(ev.key_code, KeyCode::Letter('Q'));
    assert!(!ev.pressed);
    assert!(ev.repeat);
    assert_eq!(ev.text, Some('q'));
}
