use remote_host::input::{
    key_event_for_lowercase, remote_keyboard_event, remote_mouse_click, remote_mouse_move, InputEvent,
    MouseButton,
};
use remote_host::keymap::{key_for_lowercase, same_text, str_to_key, KeyCode};
use remote_host::monitor::{pointer_target, resolve, to_device_axis, MonitorDescriptor};

fn full_hd() -> Vec<MonitorDescriptor> {
    vec![MonitorDescriptor { index: 0, origin_x: 0, origin_y: 0, width: 1920, height: 1080 }]
}

#[test]
fn upper_and_lower_case_names_give_the_same_key() {
    assert_eq!(str_to_key("A"), str_to_key("a"));
    assert_eq!(str_to_key("A"), Some(KeyCode::KeyA));
    assert_eq!(str_to_key("F1"), None);
}

#[test]
fn named_keys_resolve_in_any_case() {
    assert_eq!(str_to_key("Enter"), Some(KeyCode::Return));
    assert_eq!(str_to_key("BACKSPACE"), Some(KeyCode::Backspace));
    assert_eq!(str_to_key("Control"), Some(KeyCode::ControlLeft));
    assert_eq!(str_to_key("shift"), Some(KeyCode::ShiftLeft));
    assert_eq!(str_to_key("alt"), Some(KeyCode::Alt));
    assert_eq!(str_to_key("Escape"), Some(KeyCode::Escape));
    assert_eq!(str_to_key("tab"), Some(KeyCode::Tab));
    assert_eq!(str_to_key("Space"), Some(KeyCode::Space));
    assert_eq!(str_to_key("ArrowUp"), Some(KeyCode::UpArrow));
    assert_eq!(str_to_key("ArrowDown"), Some(KeyCode::DownArrow));
    assert_eq!(str_to_key("ArrowLeft"), Some(KeyCode::LeftArrow));
    assert_eq!(str_to_key("ArrowRight"), Some(KeyCode::RightArrow));
}

#[test]
fn letters_and_digits_resolve() {
    assert_eq!(str_to_key("z"), Some(KeyCode::KeyZ));
    assert_eq!(str_to_key("Q"), Some(KeyCode::KeyQ));
    assert_eq!(str_to_key("0"), Some(KeyCode::Num0));
    assert_eq!(str_to_key("9"), Some(KeyCode::Num9));
}

#[test]
fn names_outside_the_vocabulary_give_nothing() {
    assert_eq!(str_to_key(""), None);
    assert_eq!(str_to_key("!"), None);
    assert_eq!(str_to_key("meta"), None);
    assert_eq!(str_to_key("enter "), None);
    assert_eq!(key_for_lowercase("A"), None);
    assert_eq!(key_for_lowercase("a"), Some(KeyCode::KeyA));
}

#[test]
fn same_text_compares_characters() {
    assert!(same_text("right", "right"));
    assert!(!same_text("right", "Right"));
    assert!(!same_text("righ", "right"));
    assert!(same_text("", ""));
}

#[test]
fn right_click_presses_then_releases_the_right_button() {
    assert_eq!(
        remote_mouse_click("right"),
        vec![InputEvent::ButtonPress(MouseButton::Right), InputEvent::ButtonRelease(MouseButton::Right)]
    );
}

#[test]
fn unknown_button_clicks_like_left() {
    assert_eq!(remote_mouse_click("middle"), remote_mouse_click("left"));
    assert_eq!(
        remote_mouse_click("left"),
        vec![InputEvent::ButtonPress(MouseButton::Left), InputEvent::ButtonRelease(MouseButton::Left)]
    );
}

#[test]
fn key_events_follow_the_direction() {
    assert_eq!(remote_keyboard_event("down", "A"), Some(InputEvent::KeyPress(KeyCode::KeyA)));
    assert_eq!(remote_keyboard_event("up", "Enter"), Some(InputEvent::KeyRelease(KeyCode::Return)));
    assert_eq!(remote_keyboard_event("sideways", "a"), None);
    assert_eq!(remote_keyboard_event("down", "F1"), None);
    assert_eq!(key_event_for_lowercase("down", "space"), Some(InputEvent::KeyPress(KeyCode::Space)));
    assert_eq!(key_event_for_lowercase("Down", "space"), None);
}

#[test]
fn pointer_targets_on_a_full_hd_display() {
    let m = full_hd();
    assert_eq!(pointer_target(&m, 0, 0, 0), Some((0, 0)));
    assert_eq!(pointer_target(&m, 1_000_000, 1_000_000, 0), Some((1920, 1080)));
    assert_eq!(pointer_target(&m, 500_000, 500_000, 0), Some((960, 540)));
    assert_eq!(remote_mouse_move(&m, 500_000, 500_000, 0), Some(InputEvent::MouseMove { x: 960, y: 540 }));
}

#[test]
fn out_of_range_monitor_falls_back_to_the_first() {
    let m = full_hd();
    assert_eq!(resolve(&m, 99), Some(m[0]));
    assert_eq!(pointer_target(&m, 500_000, 500_000, 99), Some((960, 540)));
    assert_eq!(remote_mouse_move(&m, 1_000_000, 0, 99), Some(InputEvent::MouseMove { x: 1920, y: 0 }));
}

#[test]
fn no_display_means_no_move() {
    let m: Vec<MonitorDescriptor> = Vec::new();
    assert_eq!(resolve(&m, 0), None);
    assert_eq!(remote_mouse_move(&m, 0, 0, 0), None);
}

#[test]
fn second_display_uses_its_own_origin() {
    let m = vec![
        MonitorDescriptor { index: 0, origin_x: 0, origin_y: 0, width: 1920, height: 1080 },
        MonitorDescriptor { index: 1, origin_x: -1280, origin_y: 100, width: 1280, height: 1024 },
    ];
    assert_eq!(resolve(&m, 1), Some(m[1]));
    assert_eq!(pointer_target(&m, 250_000, 500_000, 1), Some((-960, 612)));
    assert_eq!(to_device_axis(10, 3, 333_333), 10);
    assert_eq!(to_device_axis(0, u32::MAX, u32::MAX), 18_446_744_065_119);
}

#[test]
fn lowering_follows_unicode_case_mapping() {
    // The Kelvin sign lowercases to an ASCII 'k'.
    assert_eq!(str_to_key("\u{212A}"), Some(KeyCode::KeyK));
    assert_eq!(remote_keyboard_event("up", "\u{212A}"), Some(InputEvent::KeyRelease(KeyCode::KeyK)));
}
