use vstd::prelude::*;
use crate::keymap::{KeyCode, key_of, lower_of, all_ascii, ascii_lower, lowercase, same_text, key_for_lowercase};
use crate::monitor::{MonitorDescriptor, resolve_spec, point_target, pointer_target};

verus! {

/// A mouse button that can be pressed on this host.
#[derive(Clone, Copy, Debug, PartialEq, Eq, Structural)]
pub enum MouseButton {
    Left,
    Right,
}

/// One platform input event to inject.
#[derive(Clone, Copy, Debug, PartialEq, Eq, Structural)]
pub enum InputEvent {
    MouseMove { x: i64, y: i64 },
    ButtonPress(MouseButton),
    ButtonRelease(MouseButton),
    KeyPress(KeyCode),
    KeyRelease(KeyCode),
}

/// The button a name stands for: `"right"` is the right button, and any other
/// name the primary one.
pub open spec fn button_of(name: Seq<char>) -> MouseButton {
    if name == "right"@ {
        MouseButton::Right
    } else {
        MouseButton::Left
    }
}

/// The events of a click: a press, then a release, of one button.
pub open spec fn click_spec(name: Seq<char>) -> Seq<InputEvent> {
    seq![InputEvent::ButtonPress(button_of(name)), InputEvent::ButtonRelease(button_of(name))]
}

/// The event for a key going `direction` (`"down"` or `"up"`), given the
/// key's name in lowercase; none for an unknown key or direction.
pub open spec fn key_event_spec(direction: Seq<char>, lowered: Seq<char>) -> Option<InputEvent> {
    match key_of(lowered) {
        Some(k) => if direction == "down"@ {
            Some(InputEvent::KeyPress(k))
        } else if direction == "up"@ {
            Some(InputEvent::KeyRelease(k))
        } else {
            None
        },
        None => None,
    }
}

/// The events that a click of the named button injects: one press and then
/// one release. An unknown name clicks the left button.
pub fn remote_mouse_click(button: &str) -> (r: Vec<InputEvent>)
    ensures
        r@ == click_spec(button@),
{
    let btn = if same_text(button, "right") {
        MouseButton::Right
    } else {
        MouseButton::Left
    };
    let mut events: Vec<InputEvent> = Vec::new();
    events.push(InputEvent::ButtonPress(btn));
    events.push(InputEvent::ButtonRelease(btn));
    assert(events@ =~= click_spec(button@));
    events
}

/// The event for a key going `state` (`"down"` or `"up"`), the key named in
/// lowercase. An unknown key or direction gives no event.
pub fn key_event_for_lowercase(state: &str, lowered: &str) -> (r: Option<InputEvent>)
    ensures
        r == key_event_spec(state@, lowered@),
{
    match key_for_lowercase(lowered) {
        Some(k) => if same_text(state, "down") {
            Some(InputEvent::KeyPress(k))
        } else if same_text(state, "up") {
            Some(InputEvent::KeyRelease(k))
        } else {
            None
        },
        None => None,
    }
}

/// The event for a key going `state` (`"down"` or `"up"`), the key named in
/// any case. An unknown key or direction gives no event.
pub fn remote_keyboard_event(state: &str, key: &str) -> (r: Option<InputEvent>)
    ensures
        r == key_event_spec(state@, lower_of(key@)),
        all_ascii(key@) ==> r == key_event_spec(state@, key@.map_values(|c: char| ascii_lower(c))),
{
    let lowered = lowercase(key);
    key_event_for_lowercase(state, lowered.as_str())
}

/// The pointer move for a normalized point, `x` and `y` in millionths of the
/// width and height of the display that `monitor_index` resolves to (the first
/// display when the index is out of range); none when no display is attached.
pub fn remote_mouse_move(monitors: &Vec<MonitorDescriptor>, x: u32, y: u32, monitor_index: usize) -> (r: Option<InputEvent>)
    ensures
        r is Some <==> monitors@.len() > 0,
        r matches Some(e) ==> e == (InputEvent::MouseMove {
            x: point_target(resolve_spec(monitors@, monitor_index)->Some_0, x, y).0 as i64,
            y: point_target(resolve_spec(monitors@, monitor_index)->Some_0, x, y).1 as i64,
        }),
{
    match pointer_target(monitors, x, y, monitor_index) {
        Some(p) => Some(InputEvent::MouseMove { x: p.0, y: p.1 }),
        None => None,
    }
}

} // verus!
