use ratatui_interact::event::{
    get_char, get_mouse_pos, get_scroll, has_alt, has_ctrl, has_shift, is_activate_key,
    is_backtab, is_ctrl_a, is_ctrl_e, is_ctrl_k, is_ctrl_u, is_ctrl_w, is_left_click,
    is_navigation_key, is_right_click, is_tab, KeyCode, KeyEvent, KeyModifiers, MouseButton,
    MouseEvent, MouseEventKind,
};

fn make_key(code: KeyCode, modifiers: KeyModifiers) -> KeyEvent {
    KeyEvent::new(code, modifiers)
}

#[test]
fn test_is_activate_key() {
    assert!(is_activate_key(&make_key(KeyCode::Enter, KeyModifiers::none())));
    assert!(is_activate_key(&make_key(KeyCode::Char(' '), KeyModifiers::none())));
    assert!(!is_activate_key(&make_key(KeyCode::Char('a'), KeyModifiers::none())));
}

#[test]
fn test_is_navigation_key() {
    assert!(is_navigation_key(&make_key(KeyCode::Tab, KeyModifiers::none())));
    assert!(is_navigation_key(&make_key(KeyCode::BackTab, KeyModifiers::none())));
    assert!(is_navigation_key(&make_key(KeyCode::Up, KeyModifiers::none())));
    assert!(is_navigation_key(&make_key(KeyCode::Down, KeyModifiers::none())));
    assert!(!is_navigation_key(&make_key(KeyCode::Enter, KeyModifiers::none())));
}

#[test]
fn test_is_tab_and_backtab() {
    assert!(is_tab(&make_key(KeyCode::Tab, KeyModifiers::none())));
    assert!(!is_tab(&make_key(KeyCode::Tab, KeyModifiers::shift())));

    assert!(is_backtab(&make_key(KeyCode::BackTab, KeyModifiers::none())));
    assert!(is_backtab(&make_key(KeyCode::Tab, KeyModifiers::shift())));
    assert!(!is_backtab(&make_key(KeyCode::Tab, KeyModifiers::none())));
}

#[test]
fn test_get_char() {
    assert_eq!(get_char(&make_key(KeyCode::Char('a'), KeyModifiers::none())), Some('a'));
    assert_eq!(get_char(&make_key(KeyCode::Char('A'), KeyModifiers::shift())), Some('A'));
    assert_eq!(get_char(&make_key(KeyCode::Char('a'), KeyModifiers::control())), None);
    assert_eq!(get_char(&make_key(KeyCode::Enter, KeyModifiers::none())), None);
}

#[test]
fn test_modifier_checks() {
    let ctrl_a = make_key(KeyCode::Char('a'), KeyModifiers::control());
    assert!(has_ctrl(&ctrl_a));
    assert!(!has_alt(&ctrl_a));
    assert!(!has_shift(&ctrl_a));

    let shift_a = make_key(KeyCode::Char('A'), KeyModifiers::shift());
    assert!(!has_ctrl(&shift_a));
    assert!(has_shift(&shift_a));
}

#[test]
fn test_ctrl_shortcuts() {
    assert!(is_ctrl_a(&make_key(KeyCode::Char('a'), KeyModifiers::control())));
    assert!(is_ctrl_e(&make_key(KeyCode::Char('e'), KeyModifiers::control())));
    assert!(is_ctrl_u(&make_key(KeyCode::Char('u'), KeyModifiers::control())));
    assert!(is_ctrl_k(&make_key(KeyCode::Char('k'), KeyModifiers::control())));
    assert!(is_ctrl_w(&make_key(KeyCode::Char('w'), KeyModifiers::control())));
}

#[test]
fn test_mouse_helpers() {
    let left_click = MouseEvent {
        kind: MouseEventKind::Down(MouseButton::Left),
        column: 10,
        row: 5,
        modifiers: KeyModifiers::none(),
    };
    assert!(is_left_click(&left_click));
    assert!(!is_right_click(&left_click));
    assert_eq!(get_mouse_pos(&left_click), (10, 5));

    let scroll_up = MouseEvent {
        kind: MouseEventKind::ScrollUp,
        column: 0,
        row: 0,
        modifiers: KeyModifiers::none(),
    };
    assert_eq!(get_scroll(&scroll_up), Some(-1));

    let scroll_down = MouseEvent {
        kind: MouseEventKind::ScrollDown,
        column: 0,
        row: 0,
        modifiers: KeyModifiers::none(),
    };
    assert_eq!(get_scroll(&scroll_down), Some(1));
}
