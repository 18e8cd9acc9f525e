use wayland_protocols_async::zwp_virtual_keyboard_v1::handler::{get_time, KeyMotion, Modifiers, VirtualKeyboardRequest, VirtualKeyboardState};

#[test]
fn key_is_sent_after_last_modifiers() {
    let mut s = VirtualKeyboardState::new();
    assert_eq!(s.send_key(5, 30, KeyMotion::Press), vec![
        VirtualKeyboardRequest::Modifiers { depressed: 0, latched: 0, locked: 0, group: 0 },
        VirtualKeyboardRequest::Key { time: 5, key: 30, state: 1 },
    ]);
    let r = s.update_modifiers(1, 2, 4);
    assert_eq!(r, VirtualKeyboardRequest::Modifiers { depressed: 1, latched: 2, locked: 4, group: 0 });
    assert_eq!(s.modifiers, Modifiers { depressed: 1, latched: 2, locked: 4 });
    assert_eq!(s.send_key(9, 31, KeyMotion::Release), vec![
        VirtualKeyboardRequest::Modifiers { depressed: 1, latched: 2, locked: 4, group: 0 },
        VirtualKeyboardRequest::Key { time: 9, key: 31, state: 0 },
    ]);
}

#[test]
fn keymap_is_xkb_v1() {
    let s = VirtualKeyboardState::new();
    assert_eq!(s.set_keymap(12, 4096), VirtualKeyboardRequest::Keymap { format: 1, fd: 12, size: 4096 });
    assert_eq!(s.set_modifiers(Modifiers::default()), VirtualKeyboardRequest::Modifiers { depressed: 0, latched: 0, locked: 0, group: 0 });
}

#[test]
fn key_motion_codes_and_time() {
    assert_eq!(KeyMotion::Press.code(), 1);
    assert_eq!(KeyMotion::Release.code(), 0);
    assert_eq!(get_time(1234), 1234);
    assert_eq!(get_time(u32::MAX as u128), u32::MAX);
    assert!(get_time(10) <= get_time(11));
    assert_eq!(get_time(500) - get_time(200), 300);
}
