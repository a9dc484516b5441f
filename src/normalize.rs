//! Mapping of native notifications to event records.

use vstd::prelude::*;
use crate::event::{EventKind, EventView, InputEvent};
use crate::native::NativeEvent;
use crate::text::{int_text, signed_text};

verus! {

/// How a wheel movement is written in the `key` field: `dx=<dx>,dy=<dy>`.
pub open spec fn wheel_text(dx: int, dy: int) -> Seq<char> {
    "dx="@ + int_text(dx) + ",dy="@ + int_text(dy)
}

/// The event record that a native notification stands for.
pub open spec fn normalized(ev: NativeEvent) -> EventView {
    match ev {
        NativeEvent::KeyPress(k) => EventView {
            kind: EventKind::KeyPress,
            key: Some(k@),
            mouse_x: None,
            mouse_y: None,
            button: None,
        },
        NativeEvent::KeyRelease(k) => EventView {
            kind: EventKind::KeyRelease,
            key: Some(k@),
            mouse_x: None,
            mouse_y: None,
            button: None,
        },
        NativeEvent::MouseMove { x, y } => EventView {
            kind: EventKind::MouseMove,
            key: None,
            mouse_x: Some(x),
            mouse_y: Some(y),
            button: None,
        },
        NativeEvent::ButtonPress(b) => EventView {
            kind: EventKind::MousePress,
            key: None,
            mouse_x: None,
            mouse_y: None,
            button: Some(b.spec_text()),
        },
        NativeEvent::ButtonRelease(b) => EventView {
            kind: EventKind::MouseRelease,
            key: None,
            mouse_x: None,
            mouse_y: None,
            button: Some(b.spec_text()),
        },
        NativeEvent::Wheel { dx, dy } => EventView {
            kind: EventKind::Wheel,
            key: Some(wheel_text(dx as int, dy as int)),
            mouse_x: None,
            mouse_y: None,
            button: None,
        },
    }
}

fn wheel_key(dx: i64, dy: i64) -> (r: String)
    ensures
        r@ == wheel_text(dx as int, dy as int),
{
    let mut s = String::from_str("dx=");
    let x = signed_text(dx);
    s.append(x.as_str());
    s.append(",dy=");
    let y = signed_text(dy);
    s.append(y.as_str());
    s
}

/// Turns one native notification into its event record: the kind follows
/// the notification, and only the fields of that kind are present.
pub fn normalize(ev: NativeEvent) -> (r: InputEvent)
    ensures
        r@ == normalized(ev),
        r@.well_formed(),
{
    match ev {
        NativeEvent::KeyPress(k) => InputEvent {
            kind: EventKind::KeyPress,
            key: Some(k),
            mouse_x: None,
            mouse_y: None,
            button: None,
        },
        NativeEvent::KeyRelease(k) => InputEvent {
            kind: EventKind::KeyRelease,
            key: Some(k),
            mouse_x: None,
            mouse_y: None,
            button: None,
        },
        NativeEvent::MouseMove { x, y } => InputEvent {
            kind: EventKind::MouseMove,
            key: None,
            mouse_x: Some(x),
            mouse_y: Some(y),
            button: None,
        },
        NativeEvent::ButtonPress(b) => InputEvent {
            kind: EventKind::MousePress,
            key: None,
            mouse_x: None,
            mouse_y: None,
            button: Some(b.text()),
        },
        NativeEvent::ButtonRelease(b) => InputEvent {
            kind: EventKind::MouseRelease,
            key: None,
            mouse_x: None,
            mouse_y: None,
            button: Some(b.text()),
        },
        NativeEvent::Wheel { dx, dy } => InputEvent {
            kind: EventKind::Wheel,
            key: Some(wheel_key(dx, dy)),
            mouse_x: None,
            mouse_y: None,
            button: None,
        },
    }
}

} // verus!
