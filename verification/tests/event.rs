use lovr_rs::lovr::event::{
    c_string_bytes, c_string_to_text, decode_event, event_type_from_code, keycode_to_key,
    DisplayType, Event, EventType, FileAction, Key, Permission, RawEvent,
};

#[test]
fn letters_and_digits_decode() {
    assert_eq!(keycode_to_key(0), Some(Key::A));
    assert_eq!(keycode_to_key(25), Some(Key::Z));
    assert_eq!(keycode_to_key(26), Some(Key::Number0));
    assert_eq!(keycode_to_key(35), Some(Key::Number9));
}

#[test]
fn named_keys_decode() {
    assert_eq!(keycode_to_key(36), Some(Key::Space));
    assert_eq!(keycode_to_key(39), Some(Key::Escape));
    assert_eq!(keycode_to_key(51), Some(Key::F1));
    assert_eq!(keycode_to_key(74), Some(Key::Kp0));
    assert_eq!(keycode_to_key(101), Some(Key::NumLock));
}

#[test]
fn unknown_key_codes_give_none() {
    assert_eq!(keycode_to_key(102), None);
    assert_eq!(keycode_to_key(1000), None);
    assert_eq!(keycode_to_key(u32::MAX), None);
}

#[test]
fn every_key_code_names_a_distinct_key() {
    let mut seen: Vec<Key> = Vec::new();
    for code in 0..102u32 {
        let key = keycode_to_key(code).expect("a key for every code below the count");
        assert!(!seen.contains(&key));
        seen.push(key);
    }
}

#[test]
fn display_types_decode() {
    assert_eq!(DisplayType::from_code(0), Some(DisplayType::Headset));
    assert_eq!(DisplayType::from_code(1), Some(DisplayType::Window));
    assert_eq!(DisplayType::from_code(2), None);
}

#[test]
fn file_actions_decode() {
    assert_eq!(FileAction::from_code(0), Some(FileAction::Create));
    assert_eq!(FileAction::from_code(1), Some(FileAction::Delete));
    assert_eq!(FileAction::from_code(2), Some(FileAction::Modify));
    assert_eq!(FileAction::from_code(3), Some(FileAction::Rename));
    assert_eq!(FileAction::from_code(4), None);
}

#[test]
fn permissions_decode() {
    assert_eq!(Permission::from_code(0), Some(Permission::AudioCapture));
    assert_eq!(Permission::from_code(1), None);
}

#[test]
fn event_types_decode() {
    assert_eq!(event_type_from_code(0), Some(EventType::Quit));
    assert_eq!(event_type_from_code(2), Some(EventType::Visible));
    assert_eq!(event_type_from_code(8), Some(EventType::KeyPressed));
    assert_eq!(event_type_from_code(18), Some(EventType::Custom));
}

#[test]
fn restart_and_unknown_event_types_are_not_handled() {
    assert_eq!(event_type_from_code(1), None);
    assert_eq!(event_type_from_code(19), None);
    assert_eq!(event_type_from_code(u32::MAX), None);
}

#[test]
fn c_string_stops_at_nul() {
    assert_eq!(c_string_bytes(b"ab\0cd"), b"ab".to_vec());
    assert_eq!(c_string_bytes(b"\0ab"), Vec::<u8>::new());
    assert_eq!(c_string_bytes(b"abc"), b"abc".to_vec());
    assert_eq!(c_string_bytes(b""), Vec::<u8>::new());
}

#[test]
fn c_string_text_decodes_utf8() {
    assert_eq!(c_string_to_text(&[0xc3, 0xa9, 0, 0x41]), "é");
    assert_eq!(c_string_to_text(b"hi"), "hi");
}

#[test]
fn c_string_text_of_invalid_utf8_is_empty() {
    assert_eq!(c_string_to_text(&[0xff, 0x41, 0]), "");
    assert_eq!(c_string_to_text(&[0xc3, 0]), "");
}

fn decode(raw: RawEvent<f64>) -> Option<Event<f64>> {
    assert!(raw.codes_known());
    decode_event(raw)
}

#[test]
fn quit_event_keeps_exit_code() {
    match decode(RawEvent::Quit { exit_code: 3 }) {
        Some(Event::Quit { exit_code }) => assert_eq!(exit_code, 3),
        other => panic!("unexpected {:?}", other),
    }
}

#[test]
fn key_pressed_resolves_key() {
    match decode(RawEvent::KeyPressed { code: 39, scancode: 9, repeat: true }) {
        Some(Event::KeyPressed { code, scancode, repeat }) => {
            assert_eq!(code, Key::Escape);
            assert_eq!(scancode, 9);
            assert!(repeat);
        }
        other => panic!("unexpected {:?}", other),
    }
}

#[test]
fn key_events_with_unknown_codes_are_skipped() {
    assert!(decode(RawEvent::KeyPressed { code: 500, scancode: 1, repeat: false }).is_none());
    assert!(decode(RawEvent::KeyReleased { code: 102, scancode: 1 }).is_none());
}

#[test]
fn key_released_resolves_key() {
    match decode(RawEvent::KeyReleased { code: 0, scancode: 4 }) {
        Some(Event::KeyReleased { code, scancode }) => {
            assert_eq!(code, Key::A);
            assert_eq!(scancode, 4);
        }
        other => panic!("unexpected {:?}", other),
    }
}

#[test]
fn visible_and_focus_resolve_display() {
    match decode(RawEvent::Visible { visible: true, display: 1 }) {
        Some(Event::Visible { visible, display }) => {
            assert!(visible);
            assert_eq!(display, DisplayType::Window);
        }
        other => panic!("unexpected {:?}", other),
    }
    match decode(RawEvent::Focus { focused: false, display: 0 }) {
        Some(Event::Focus { focused, display }) => {
            assert!(!focused);
            assert_eq!(display, DisplayType::Headset);
        }
        other => panic!("unexpected {:?}", other),
    }
}

#[test]
fn unknown_codes_are_reported() {
    let raw: RawEvent<f64> = RawEvent::Visible { visible: true, display: 2 };
    assert!(!raw.codes_known());
    let raw: RawEvent<f64> =
        RawEvent::FileChanged { path: String::new(), action: 4, old_path: String::new() };
    assert!(!raw.codes_known());
    let raw: RawEvent<f64> = RawEvent::Permission { permission: 1, granted: true };
    assert!(!raw.codes_known());
}

#[test]
fn text_input_is_decoded() {
    match decode(RawEvent::TextInput { utf8: vec![0xe2, 0x82, 0xac, 0, 0], codepoint: 0x20ac }) {
        Some(Event::TextInput { utf8, codepoint }) => {
            assert_eq!(utf8, "€");
            assert_eq!(codepoint, 0x20ac);
        }
        other => panic!("unexpected {:?}", other),
    }
}

#[test]
fn mouse_events_pass_coordinates_through() {
    match decode(RawEvent::MouseMoved { x: 1.5, y: -2.0, dx: 0.25, dy: 4.0 }) {
        Some(Event::MouseMoved { x, y, dx, dy }) => {
            assert_eq!((x, y, dx, dy), (1.5, -2.0, 0.25, 4.0));
        }
        other => panic!("unexpected {:?}", other),
    }
    match decode(RawEvent::MousePressed { x: 3.0, y: 4.0, button: 2 }) {
        Some(Event::MousePressed { x, y, button }) => assert_eq!((x, y, button), (3.0, 4.0, 2)),
        other => panic!("unexpected {:?}", other),
    }
}

#[test]
fn file_changed_resolves_action() {
    let raw = RawEvent::FileChanged {
        path: String::from("new.lua"),
        action: 3,
        old_path: String::from("old.lua"),
    };
    match decode(raw) {
        Some(Event::FileChanged { path, action, old_path }) => {
            assert_eq!(path, "new.lua");
            assert_eq!(action, FileAction::Rename);
            assert_eq!(old_path, "old.lua");
        }
        other => panic!("unexpected {:?}", other),
    }
}

#[test]
fn permission_resolves() {
    match decode(RawEvent::Permission { permission: 0, granted: true }) {
        Some(Event::Permission { permission, granted }) => {
            assert_eq!(permission, Permission::AudioCapture);
            assert!(granted);
        }
        other => panic!("unexpected {:?}", other),
    }
}

#[test]
fn plain_events_pass_through() {
    assert!(matches!(decode(RawEvent::Recenter), Some(Event::Recenter)));
    assert!(matches!(decode(RawEvent::ModelsChanged), Some(Event::ModelsChanged)));
    assert!(matches!(decode(RawEvent::Custom), Some(Event::Custom)));
    assert!(matches!(decode(RawEvent::Mount { mounted: true }), Some(Event::Mount { mounted: true })));
    assert!(matches!(
        decode(RawEvent::Resize { width: 800, height: 600 }),
        Some(Event::Resize { width: 800, height: 600 })
    ));
    match decode(RawEvent::ThreadError { error: String::from("boom") }) {
        Some(Event::ThreadError { error }) => assert_eq!(error, "boom"),
        other => panic!("unexpected {:?}", other),
    }
}
