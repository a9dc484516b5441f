use input_capture::event::{EventKind, InputEvent};
use input_capture::native::{Button, NativeEvent};
use input_capture::normalize::normalize;

fn fields(e: &InputEvent) -> (EventKind, Option<String>, Option<i32>, Option<i32>, Option<String>) {
    (e.kind, e.key.clone(), e.mouse_x, e.mouse_y, e.button.clone())
}

#[test]
fn key_press_maps_to_key_press() {
    let e = normalize(NativeEvent::KeyPress("A".to_string()));
    assert_eq!(fields(&e), (EventKind::KeyPress, Some("A".to_string()), None, None, None));
    assert_eq!(e.event_type(), "key_press");
}

#[test]
fn key_release_maps_to_key_release() {
    let e = normalize(NativeEvent::KeyRelease("ShiftLeft".to_string()));
    assert_eq!(fields(&e), (EventKind::KeyRelease, Some("ShiftLeft".to_string()), None, None, None));
    assert_eq!(e.event_type(), "key_release");
}

#[test]
fn pointer_move_maps_to_mouse_move() {
    let e = normalize(NativeEvent::MouseMove { x: 120, y: 45 });
    assert_eq!(fields(&e), (EventKind::MouseMove, None, Some(120), Some(45), None));
    assert_eq!(e.event_type(), "mouse_move");
}

#[test]
fn pointer_move_keeps_negative_coordinates() {
    let e = normalize(NativeEvent::MouseMove { x: -5, y: i32::MAX });
    assert_eq!(fields(&e), (EventKind::MouseMove, None, Some(-5), Some(i32::MAX), None));
}

#[test]
fn button_press_maps_to_mouse_press() {
    let e = normalize(NativeEvent::ButtonPress(Button::Left));
    assert_eq!(fields(&e), (EventKind::MousePress, None, None, None, Some("Left".to_string())));
    assert_eq!(e.event_type(), "mouse_press");
}

#[test]
fn button_release_maps_to_mouse_release() {
    let e = normalize(NativeEvent::ButtonRelease(Button::Middle));
    assert_eq!(fields(&e), (EventKind::MouseRelease, None, None, None, Some("Middle".to_string())));
    assert_eq!(e.event_type(), "mouse_release");
}

#[test]
fn unknown_button_is_named_by_code() {
    let e = normalize(NativeEvent::ButtonPress(Button::Unknown(8)));
    assert_eq!(e.button, Some("Unknown(8)".to_string()));
    assert_eq!(Button::Unknown(255).text(), "Unknown(255)");
    assert_eq!(Button::Unknown(0).text(), "Unknown(0)");
    assert_eq!(Button::Right.text(), "Right");
}

#[test]
fn wheel_encodes_deltas_in_key() {
    let e = normalize(NativeEvent::Wheel { dx: 0, dy: -3 });
    assert_eq!(fields(&e), (EventKind::Wheel, Some("dx=0,dy=-3".to_string()), None, None, None));
    assert_eq!(e.event_type(), "wheel");
}

#[test]
fn wheel_at_extreme_deltas() {
    let e = normalize(NativeEvent::Wheel { dx: i64::MIN, dy: i64::MAX });
    assert_eq!(
        e.key,
        Some("dx=-9223372036854775808,dy=9223372036854775807".to_string())
    );
}

#[test]
fn kind_names_round_trip() {
    let kinds = [
        EventKind::KeyPress,
        EventKind::KeyRelease,
        EventKind::MouseMove,
        EventKind::MousePress,
        EventKind::MouseRelease,
        EventKind::Wheel,
    ];
    for k in kinds {
        assert_eq!(EventKind::from_name(k.name()), Some(k));
    }
}

#[test]
fn unknown_kind_name_is_rejected() {
    assert_eq!(EventKind::from_name("scroll"), None);
    assert_eq!(EventKind::from_name(""), None);
    assert_eq!(EventKind::from_name("Key_press"), None);
}
