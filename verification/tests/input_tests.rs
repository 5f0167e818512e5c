use rustautogui::errors::AutoGuiError;
use rustautogui::keyboard::{Keyboard, KeyboardRequest};
use rustautogui::mouse::{Mouse, MouseClick, MouseRequest, MouseScroll};
use rustautogui::session::{session_kind, SessionKind};

#[test]
fn session_kind_reads_supported_servers() {
    assert_eq!(session_kind(Some("wayland")).unwrap(), SessionKind::Wayland);
    assert_eq!(session_kind(Some("x11")).unwrap(), SessionKind::X11);
}

#[test]
fn session_kind_refuses_missing_variable() {
    match session_kind(None) {
        Err(AutoGuiError::OSFailure(m)) => {
            assert_eq!(m, "XDG_SESSION_TYPE is not set, cannot determine wayland vs x11")
        }
        other => panic!("unexpected {:?}", other),
    }
}

#[test]
fn session_kind_refuses_unknown_server() {
    match session_kind(Some("tty")) {
        Err(AutoGuiError::OSFailure(m)) => {
            assert_eq!(m, "Unknown XDG_SESSION_TYPE=tty - should be 'x11' or 'wayland'")
        }
        other => panic!("unexpected {:?}", other),
    }
    assert!(session_kind(Some("X11")).is_err());
    assert!(session_kind(Some("")).is_err());
}

#[test]
fn keyboard_requests_carry_their_keys() {
    let kb = Keyboard::X11;
    assert_eq!(kb.get_keymap_key("a"), KeyboardRequest::KeymapKey("a".to_string()));
    assert_eq!(kb.key_down("shift"), KeyboardRequest::KeyDown("shift".to_string()));
    assert_eq!(kb.key_up("shift"), KeyboardRequest::KeyUp("shift".to_string()));
    assert_eq!(kb.get_keycode("return"), KeyboardRequest::Keycode("return".to_string()));
    assert_eq!(kb.send_char(&'x'), KeyboardRequest::SendChar('x'));
    assert_eq!(kb.send_command("escape"), KeyboardRequest::SendCommand("escape".to_string()));
    assert_eq!(
        kb.send_multi_key("ctrl", "shift", Some("t".to_string())),
        KeyboardRequest::SendMultiKey("ctrl".to_string(), "shift".to_string(), Some("t".to_string()))
    );
    assert_eq!(
        kb.send_multi_key("ctrl", "c", None),
        KeyboardRequest::SendMultiKey("ctrl".to_string(), "c".to_string(), None)
    );
}

#[test]
fn mouse_requests_carry_their_arguments() {
    let m = Mouse::X11;
    assert_eq!(m.move_mouse_to_pos(10, -3), MouseRequest::MoveTo { x: 10, y: -3 });
    assert_eq!(m.drag_mouse(5, 6), MouseRequest::DragTo { x: 5, y: 6 });
    assert_eq!(m.get_mouse_position(), MouseRequest::Position);
    assert_eq!(m.mouse_click(MouseClick::LEFT), MouseRequest::Click(MouseClick::LEFT));
    assert_eq!(m.mouse_down(MouseClick::RIGHT), MouseRequest::Down(MouseClick::RIGHT));
    assert_eq!(m.mouse_up(MouseClick::MIDDLE), MouseRequest::Up(MouseClick::MIDDLE));
    assert_eq!(
        m.scroll(MouseScroll::DOWN, 3),
        MouseRequest::Scroll { direction: MouseScroll::DOWN, intensity: 3 }
    );
}
