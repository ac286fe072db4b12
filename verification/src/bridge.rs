//! The event bridge: decoding the tagged messages a foreign UI context
//! forwards, and building the outbound notifications.
//!
//! Inbound payloads arrive as JSON text; `serde_json` reads them behind
//! trusted per-field wrappers whose results carry names, so every
//! decoder and dispatcher below states exactly what lands in the
//! pipeline's mailbox for a given payload. A missing or malformed
//! field becomes zero or false rather than failing the tick, and
//! unrecognized message types are ignored.

use vstd::prelude::*;
use crate::fixed::{COORD_LIMIT, FIX_ONE, in_range, clamp_spec, clamp_i64};
use crate::state::{WorkerApp, app_wf, Mailbox, MouseButton, mouse_button_spec,
    to_physical_spec};
use crate::keyboard::{str_eq, KeyboardInput, as_key_spec, as_key_code_spec, key_text_spec};

verus! {

/// The structured message exchanged with the foreign context: a type
/// tag, an optional JSON-encoded event payload, and an optional id
/// list.
pub struct Message {
    pub ty: String,
    pub event: Option<String>,
    pub list: Option<Vec<u64>>,
}

impl Message {
    /// The outbound pick notification: the hovered object ids of the
    /// latest hover resolution.
    pub fn pick(ids: Vec<u64>) -> (m: Message)
        ensures
            m.ty@ == "pick"@,
            m.event is None,
            m.list == Some(ids),
    {
        Message {
            ty: String::from_str("pick"),
            event: None,
            list: Some(ids),
        }
    }

    /// The outbound readiness notification, sent once the render
    /// surface finishes initializing.
    pub fn ready() -> (m: Message)
        ensures
            m.ty@ == "ready"@,
            m.event is None,
            m.list is None,
    {
        Message {
            ty: String::from_str("ready"),
            event: None,
            list: None,
        }
    }
}

/// A decoded pointer event; coordinates are whole device pixels.
#[derive(Clone, Copy, Debug, PartialEq, Eq, Structural)]
pub struct MouseEventRecord {
    pub alt_key: bool,
    pub button: i64,
    pub buttons: i64,
    pub client_x: i64,
    pub client_y: i64,
    pub ctrl_key: bool,
    pub meta_key: bool,
    pub offset_x: i64,
    pub offset_y: i64,
    pub page_x: i64,
    pub page_y: i64,
    pub screen_x: i64,
    pub screen_y: i64,
    pub shift_key: bool,
}

/// A decoded keyboard event.
pub struct KeyboardEventRecord {
    pub alt_key: bool,
    pub code: String,
    pub ctrl_key: bool,
    pub is_composing: bool,
    pub key: String,
    pub location: i64,
    pub meta_key: bool,
    pub shift_key: bool,
    pub repeat: bool,
}

/// A decoded wheel event.
#[derive(Clone, Copy, Debug, PartialEq, Eq, Structural)]
pub struct WheelEventRecord {
    pub delta_x: i64,
    pub delta_y: i64,
    pub delta_z: i64,
    pub delta_mode: i64,
}

// ---------------------------------------------------------------
// Trusted items: serde_json behind named per-field readers. Each
// result is a function of the text and key alone, so it carries a
// name that the decoding contracts speak of.
// ---------------------------------------------------------------

/// Whether the text is well-formed JSON.
pub uninterp spec fn json_parses(s: Seq<char>) -> bool;

/// The named top-level field of the JSON text as a signed integer,
/// absent when the text does not parse, the field is missing, or it is
/// not an integral number that fits.
pub uninterp spec fn json_i64_field_of(s: Seq<char>, key: Seq<char>) -> Option<i64>;

/// The named top-level field of the JSON text as a boolean, absent
/// when the text does not parse, the field is missing, or it is not a
/// boolean.
pub uninterp spec fn json_bool_field_of(s: Seq<char>, key: Seq<char>) -> Option<bool>;

/// The named top-level field of the JSON text as a string, absent when
/// the text does not parse, the field is missing, or it is not a
/// string.
pub uninterp spec fn json_str_field_of(s: Seq<char>, key: Seq<char>) -> Option<Seq<char>>;

/// Relies on serde_json::from_str::<Value>, Value::get and
/// Value::as_i64: reads one named integer field of a JSON text; a
/// parse failure propagates as absence.
#[verifier::external_body]
fn json_field_i64(s: &str, key: &str) -> (r: Option<i64>)
    ensures
        r == json_i64_field_of(s@, key@),
        !json_parses(s@) ==> r is None,
{
    serde_json::from_str::<serde_json::Value>(s)
        .ok()
        .and_then(|v| v.get(key).and_then(serde_json::Value::as_i64))
}

/// Relies on serde_json::from_str::<Value>, Value::get and
/// Value::as_bool: reads one named boolean field of a JSON text; a
/// parse failure propagates as absence.
#[verifier::external_body]
fn json_field_bool(s: &str, key: &str) -> (r: Option<bool>)
    ensures
        r == json_bool_field_of(s@, key@),
        !json_parses(s@) ==> r is None,
{
    serde_json::from_str::<serde_json::Value>(s)
        .ok()
        .and_then(|v| v.get(key).and_then(serde_json::Value::as_bool))
}

/// Relies on serde_json::from_str::<Value>, Value::get and
/// Value::as_str: reads one named string field of a JSON text; a
/// parse failure propagates as absence.
#[verifier::external_body]
fn json_field_str(s: &str, key: &str) -> (r: Option<String>)
    ensures
        r is Some <==> json_str_field_of(s@, key@) is Some,
        r is Some ==> r.unwrap()@ == json_str_field_of(s@, key@).unwrap(),
        !json_parses(s@) ==> r is None,
{
    serde_json::from_str::<serde_json::Value>(s)
        .ok()
        .and_then(|v| v.get(key).and_then(|f| f.as_str().map(str::to_string)))
}

// ---------------------------------------------------------------
// Verified defaulting: what a field becomes whatever the payload held.
// ---------------------------------------------------------------

/// An integer field's defaulted value: the parsed number when present,
/// zero when missing or malformed, held inside the coordinate limit.
pub open spec fn int_field_spec(raw: Option<i64>) -> int {
    match raw {
        Some(v) => clamp_spec(v as int, -(COORD_LIMIT as int), COORD_LIMIT as int),
        None => 0,
    }
}

/// Default-and-clamp one integer field; missing or malformed fields
/// become zero rather than failing the tick.
pub fn int_field(raw: Option<i64>) -> (r: i64)
    ensures
        r == int_field_spec(raw),
        in_range(r),
{
    match raw {
        Some(v) => clamp_i64(v, -COORD_LIMIT, COORD_LIMIT),
        None => 0,
    }
}

/// A boolean field's defaulted value: false when missing or malformed.
pub open spec fn bool_field_spec(raw: Option<bool>) -> bool {
    match raw {
        Some(v) => v,
        None => false,
    }
}

pub fn bool_field(raw: Option<bool>) -> (r: bool)
    ensures
        r == bool_field_spec(raw),
{
    match raw {
        Some(v) => v,
        None => false,
    }
}

/// A string field's defaulted value: empty when missing or malformed.
pub open spec fn str_field_spec(raw: Option<Seq<char>>) -> Seq<char> {
    match raw {
        Some(t) => t,
        None => Seq::empty(),
    }
}

fn str_field(raw: Option<String>) -> (r: String)
    ensures
        raw is Some ==> r@ == raw.unwrap()@,
        raw is None ==> r@ == Seq::<char>::empty(),
{
    match raw {
        Some(s) => s,
        None => String::new(),
    }
}

// ---------------------------------------------------------------
// The payload decoders, each with the record it returns pinned to the
// named fields of its text.
// ---------------------------------------------------------------

/// Every pointer field in range: what the decoder guarantees whatever
/// the payload held.
pub open spec fn mouse_record_wf(r: MouseEventRecord) -> bool {
    &&& in_range(r.button)
    &&& in_range(r.offset_x)
    &&& in_range(r.offset_y)
}

/// The pointer record a payload text decodes to: each field is the
/// named field of the text, defaulted and clamped on its own.
pub open spec fn mouse_record_spec(s: Seq<char>) -> MouseEventRecord {
    MouseEventRecord {
        alt_key: bool_field_spec(json_bool_field_of(s, "altKey"@)),
        button: int_field_spec(json_i64_field_of(s, "button"@)) as i64,
        buttons: int_field_spec(json_i64_field_of(s, "buttons"@)) as i64,
        client_x: int_field_spec(json_i64_field_of(s, "clientX"@)) as i64,
        client_y: int_field_spec(json_i64_field_of(s, "clientY"@)) as i64,
        ctrl_key: bool_field_spec(json_bool_field_of(s, "ctrlKey"@)),
        meta_key: bool_field_spec(json_bool_field_of(s, "metaKey"@)),
        offset_x: int_field_spec(json_i64_field_of(s, "offsetX"@)) as i64,
        offset_y: int_field_spec(json_i64_field_of(s, "offsetY"@)) as i64,
        page_x: int_field_spec(json_i64_field_of(s, "pageX"@)) as i64,
        page_y: int_field_spec(json_i64_field_of(s, "pageY"@)) as i64,
        screen_x: int_field_spec(json_i64_field_of(s, "screenX"@)) as i64,
        screen_y: int_field_spec(json_i64_field_of(s, "screenY"@)) as i64,
        shift_key: bool_field_spec(json_bool_field_of(s, "shiftKey"@)),
    }
}

/// The all-zero pointer record a malformed payload falls back to.
pub open spec fn zero_mouse_record() -> MouseEventRecord {
    MouseEventRecord {
        alt_key: false,
        button: 0,
        buttons: 0,
        client_x: 0,
        client_y: 0,
        ctrl_key: false,
        meta_key: false,
        offset_x: 0,
        offset_y: 0,
        page_x: 0,
        page_y: 0,
        screen_x: 0,
        screen_y: 0,
        shift_key: false,
    }
}

/// Assemble a pointer record from its extracted fields: each absent or
/// malformed field becomes zero or false, each number is clamped into
/// the coordinate limit.
pub fn mouse_record_from_fields(alt_key: Option<bool>, button: Option<i64>,
    buttons: Option<i64>, client_x: Option<i64>, client_y: Option<i64>,
    ctrl_key: Option<bool>, meta_key: Option<bool>, offset_x: Option<i64>,
    offset_y: Option<i64>, page_x: Option<i64>, page_y: Option<i64>,
    screen_x: Option<i64>, screen_y: Option<i64>, shift_key: Option<bool>)
    -> (r: MouseEventRecord)
    ensures
        r == (MouseEventRecord {
            alt_key: bool_field_spec(alt_key),
            button: int_field_spec(button) as i64,
            buttons: int_field_spec(buttons) as i64,
            client_x: int_field_spec(client_x) as i64,
            client_y: int_field_spec(client_y) as i64,
            ctrl_key: bool_field_spec(ctrl_key),
            meta_key: bool_field_spec(meta_key),
            offset_x: int_field_spec(offset_x) as i64,
            offset_y: int_field_spec(offset_y) as i64,
            page_x: int_field_spec(page_x) as i64,
            page_y: int_field_spec(page_y) as i64,
            screen_x: int_field_spec(screen_x) as i64,
            screen_y: int_field_spec(screen_y) as i64,
            shift_key: bool_field_spec(shift_key),
        }),
        mouse_record_wf(r),
{
    MouseEventRecord {
        alt_key: bool_field(alt_key),
        button: int_field(button),
        buttons: int_field(buttons),
        client_x: int_field(client_x),
        client_y: int_field(client_y),
        ctrl_key: bool_field(ctrl_key),
        meta_key: bool_field(meta_key),
        offset_x: int_field(offset_x),
        offset_y: int_field(offset_y),
        page_x: int_field(page_x),
        page_y: int_field(page_y),
        screen_x: int_field(screen_x),
        screen_y: int_field(screen_y),
        shift_key: bool_field(shift_key),
    }
}

/// Decode a pointer payload: the record is exactly the payload's named
/// fields, defaulted field by field; a text that does not parse yields
/// the all-zero record.
pub fn parse_mouse_event(s: &str) -> (r: MouseEventRecord)
    ensures
        r == mouse_record_spec(s@),
        !json_parses(s@) ==> r == zero_mouse_record(),
        mouse_record_wf(r),
{
    mouse_record_from_fields(
        json_field_bool(s, "altKey"),
        json_field_i64(s, "button"),
        json_field_i64(s, "buttons"),
        json_field_i64(s, "clientX"),
        json_field_i64(s, "clientY"),
        json_field_bool(s, "ctrlKey"),
        json_field_bool(s, "metaKey"),
        json_field_i64(s, "offsetX"),
        json_field_i64(s, "offsetY"),
        json_field_i64(s, "pageX"),
        json_field_i64(s, "pageY"),
        json_field_i64(s, "screenX"),
        json_field_i64(s, "screenY"),
        json_field_bool(s, "shiftKey"),
    )
}

/// Decode a keyboard payload: each field is the payload's named field,
/// defaulted on its own; a text that does not parse yields empty
/// strings and zero values.
pub fn parse_key_event(s: &str) -> (r: KeyboardEventRecord)
    ensures
        r.alt_key == bool_field_spec(json_bool_field_of(s@, "altKey"@)),
        r.code@ == str_field_spec(json_str_field_of(s@, "code"@)),
        r.ctrl_key == bool_field_spec(json_bool_field_of(s@, "ctrlKey"@)),
        r.is_composing == bool_field_spec(json_bool_field_of(s@, "isComposing"@)),
        r.key@ == str_field_spec(json_str_field_of(s@, "key"@)),
        r.location == int_field_spec(json_i64_field_of(s@, "location"@)),
        r.meta_key == bool_field_spec(json_bool_field_of(s@, "metaKey"@)),
        r.shift_key == bool_field_spec(json_bool_field_of(s@, "shiftKey"@)),
        r.repeat == bool_field_spec(json_bool_field_of(s@, "repeat"@)),
        !json_parses(s@) ==> r.code@ == Seq::<char>::empty() && !r.repeat,
        in_range(r.location),
{
    KeyboardEventRecord {
        alt_key: bool_field(json_field_bool(s, "altKey")),
        code: str_field(json_field_str(s, "code")),
        ctrl_key: bool_field(json_field_bool(s, "ctrlKey")),
        is_composing: bool_field(json_field_bool(s, "isComposing")),
        key: str_field(json_field_str(s, "key")),
        location: int_field(json_field_i64(s, "location")),
        meta_key: bool_field(json_field_bool(s, "metaKey")),
        shift_key: bool_field(json_field_bool(s, "shiftKey")),
        repeat: bool_field(json_field_bool(s, "repeat")),
    }
}

/// The wheel record a payload text decodes to.
pub open spec fn wheel_record_spec(s: Seq<char>) -> WheelEventRecord {
    WheelEventRecord {
        delta_x: int_field_spec(json_i64_field_of(s, "deltaX"@)) as i64,
        delta_y: int_field_spec(json_i64_field_of(s, "deltaY"@)) as i64,
        delta_z: int_field_spec(json_i64_field_of(s, "deltaZ"@)) as i64,
        delta_mode: int_field_spec(json_i64_field_of(s, "deltaMode"@)) as i64,
    }
}

/// Decode a wheel payload: the record is exactly the payload's named
/// fields, defaulted field by field; a text that does not parse yields
/// the all-zero record.
pub fn parse_wheel_event(s: &str) -> (r: WheelEventRecord)
    ensures
        r == wheel_record_spec(s@),
        !json_parses(s@) ==> r == (WheelEventRecord {
            delta_x: 0i64,
            delta_y: 0i64,
            delta_z: 0i64,
            delta_mode: 0i64,
        }),
        in_range(r.delta_x),
        in_range(r.delta_y),
        in_range(r.delta_z),
{
    WheelEventRecord {
        delta_x: int_field(json_field_i64(s, "deltaX")),
        delta_y: int_field(json_field_i64(s, "deltaY")),
        delta_z: int_field(json_field_i64(s, "deltaZ")),
        delta_mode: int_field(json_field_i64(s, "deltaMode")),
    }
}

// ---------------------------------------------------------------
// Conversions at the dispatch boundary.
// ---------------------------------------------------------------

/// A whole-pixel coordinate lifted into fixed point, saturating at the
/// coordinate limit.
pub open spec fn pixels_to_fix_spec(v: int) -> int {
    clamp_spec(v * (FIX_ONE as int), -(COORD_LIMIT as int), COORD_LIMIT as int)
}

pub fn pixels_to_fix(v: i64) -> (r: i64)
    requires
        in_range(v),
    ensures
        r == pixels_to_fix_spec(v as int),
        in_range(r),
{
    proof {
        assert(-100_000_000_000int <= (v as int) * 1000 <= 100_000_000_000int) by (nonlinear_arith)
            requires
                -100_000_000int <= v as int <= 100_000_000int;
    }
    clamp_i64(v * FIX_ONE, -COORD_LIMIT, COORD_LIMIT)
}

/// A button index narrowed to the foreign event's width.
pub fn narrow_button(b: i64) -> (r: i16)
    requires
        in_range(b),
    ensures
        r as int == clamp_spec(b as int, i16::MIN as int, i16::MAX as int),
{
    clamp_i64(b, -32768, 32767) as i16
}

// ---------------------------------------------------------------
// Dispatch: what each recognized message leaves in the pipeline.
// ---------------------------------------------------------------

/// The pipeline state after one pointer message: a press or release of
/// the payload's button is recorded when it is the primary one, and a
/// move deposits the physically-scaled cursor position, replacing any
/// earlier move of the tick.
pub open spec fn mouse_dispatch_spec(a: WorkerApp, ty: Seq<char>, s: Seq<char>) -> WorkerApp {
    let d = mouse_record_spec(s);
    let is_left = mouse_button_spec(
        clamp_spec(d.button as int, i16::MIN as int, i16::MAX as int)) == MouseButton::Left;
    if ty == "mouse_up"@ {
        WorkerApp {
            mailbox: Mailbox { mouse_released: a.mailbox.mouse_released || is_left, ..a.mailbox },
            ..a
        }
    } else if ty == "mouse_down"@ {
        WorkerApp {
            mailbox: Mailbox { mouse_pressed: a.mailbox.mouse_pressed || is_left, ..a.mailbox },
            ..a
        }
    } else if ty == "mouse_move"@ {
        WorkerApp {
            mailbox: Mailbox {
                mouse_move: Some(to_physical_spec(
                    pixels_to_fix_spec(d.offset_x as int),
                    pixels_to_fix_spec(d.offset_y as int),
                    a.scale_factor as int)),
                ..a.mailbox
            },
            ..a
        }
    } else {
        a
    }
}

/// The pipeline state after one keyboard message: the decoded key
/// event of the payload's code string replaces any earlier one.
pub open spec fn key_dispatch_spec(a: WorkerApp, ty: Seq<char>, s: Seq<char>) -> WorkerApp {
    let code = str_field_spec(json_str_field_of(s, "code"@));
    let repeat = bool_field_spec(json_bool_field_of(s, "repeat"@));
    let pressed = ty == "key_down"@;
    if ty == "key_up"@ || ty == "key_down"@ {
        WorkerApp {
            mailbox: Mailbox {
                key: Some(KeyboardInput {
                    key_code: as_key_code_spec(code),
                    logical_key: as_key_spec(code),
                    pressed,
                    text: key_text_spec(as_key_spec(code)),
                    repeat,
                }),
                ..a.mailbox
            },
            ..a
        }
    } else {
        a
    }
}

/// The pipeline state after one wheel message: the payload's vertical
/// delta, in fixed point, accumulates into the mailbox, saturating at
/// the coordinate limit.
pub open spec fn wheel_dispatch_spec(a: WorkerApp, ty: Seq<char>, s: Seq<char>) -> WorkerApp {
    let d = wheel_record_spec(s);
    if ty == "wheel"@ {
        WorkerApp {
            mailbox: Mailbox {
                wheel_y: clamp_spec(
                    a.mailbox.wheel_y + pixels_to_fix_spec(d.delta_y as int),
                    -(COORD_LIMIT as int), COORD_LIMIT as int) as i64,
                ..a.mailbox
            },
            ..a
        }
    } else {
        a
    }
}

/// Dispatch one decoded pointer message into the pipeline's mailbox.
pub fn on_mouse_event(app: &mut WorkerApp, ty: &str, event: &str)
    requires
        app_wf(*old(app)),
    ensures
        app_wf(*final(app)),
        *final(app) == mouse_dispatch_spec(*old(app), ty@, event@),
{
    let d = parse_mouse_event(event);
    if str_eq(ty, "mouse_up") {
        app.on_mouse_up(narrow_button(d.button));
    } else if str_eq(ty, "mouse_down") {
        app.on_mouse_down(narrow_button(d.button), pixels_to_fix(d.offset_x),
            pixels_to_fix(d.offset_y));
    } else if str_eq(ty, "mouse_move") {
        app.on_mouse_move(pixels_to_fix(d.offset_x), pixels_to_fix(d.offset_y));
    }
}

/// Dispatch one decoded keyboard message into the pipeline's mailbox.
pub fn on_key_event(app: &mut WorkerApp, ty: &str, event: &str)
    requires
        app_wf(*old(app)),
    ensures
        app_wf(*final(app)),
        *final(app) == key_dispatch_spec(*old(app), ty@, event@),
{
    proof {
        reveal_strlit("key_up");
        reveal_strlit("key_down");
        assert("key_up"@.len() != "key_down"@.len());
    }
    let d = parse_key_event(event);
    if str_eq(ty, "key_up") {
        app.on_key_up(d.code.as_str(), d.repeat);
    } else if str_eq(ty, "key_down") {
        app.on_key_down(d.code.as_str(), d.repeat);
    }
}

/// Dispatch one decoded wheel message into the pipeline's mailbox.
pub fn on_wheel_event(app: &mut WorkerApp, ty: &str, event: &str)
    requires
        app_wf(*old(app)),
    ensures
        app_wf(*final(app)),
        *final(app) == wheel_dispatch_spec(*old(app), ty@, event@),
{
    let d = parse_wheel_event(event);
    if str_eq(ty, "wheel") {
        app.on_wheel(pixels_to_fix(d.delta_x), pixels_to_fix(d.delta_y),
            if d.delta_mode == 1 { 1 } else { 0 });
    }
}

/// The pipeline state after routing one inbound message: the matching
/// family handler's result for a recognized tag with a payload;
/// unchanged for an unrecognized tag or a missing payload.
pub open spec fn message_dispatch_spec(a: WorkerApp, ty: Seq<char>, ev: Option<Seq<char>>)
    -> WorkerApp {
    if ty == "mouse_up"@ || ty == "mouse_down"@ || ty == "mouse_move"@ {
        match ev {
            Some(s) => mouse_dispatch_spec(a, ty, s),
            None => a,
        }
    } else if ty == "key_up"@ || ty == "key_down"@ {
        match ev {
            Some(s) => key_dispatch_spec(a, ty, s),
            None => a,
        }
    } else if ty == "wheel"@ {
        match ev {
            Some(s) => wheel_dispatch_spec(a, ty, s),
            None => a,
        }
    } else {
        a
    }
}

/// Route one inbound message by its type tag: exactly the matching
/// family handler runs on the payload. An unrecognized tag, or a
/// recognized tag without a payload, leaves the pipeline untouched.
pub fn on_message(app: &mut WorkerApp, msg: &Message)
    requires
        app_wf(*old(app)),
    ensures
        app_wf(*final(app)),
        *final(app) == message_dispatch_spec(*old(app), msg.ty@,
            (if msg.event is Some { Some(msg.event.unwrap()@) } else { None })),
        msg.event is None ==> *final(app) == *old(app),
        !(msg.ty@ == "mouse_up"@ || msg.ty@ == "mouse_down"@ || msg.ty@ == "mouse_move"@
            || msg.ty@ == "key_up"@ || msg.ty@ == "key_down"@ || msg.ty@ == "wheel"@)
            ==> *final(app) == *old(app),
{
    let ty = msg.ty.as_str();
    if str_eq(ty, "mouse_up") || str_eq(ty, "mouse_down") || str_eq(ty, "mouse_move") {
        if let Some(ev) = &msg.event {
            on_mouse_event(app, ty, ev.as_str());
        }
    } else if str_eq(ty, "key_up") || str_eq(ty, "key_down") {
        if let Some(ev) = &msg.event {
            on_key_event(app, ty, ev.as_str());
        }
    } else if str_eq(ty, "wheel") {
        if let Some(ev) = &msg.event {
            on_wheel_event(app, ty, ev.as_str());
        }
    }
}

} // verus!
