use ratatui_interact::mouse_capture::{
    capture_change, disable_mouse_capture, enable_mouse_capture, send_capture_command,
    set_mouse_capture, toggle_mouse_capture, CaptureCommand,
    MouseCaptureState,
};

#[test]
fn test_mouse_capture_state_new() {
    let enabled = MouseCaptureState::new(true);
    assert!(enabled.is_enabled());
    assert!(!enabled.is_copy_mode());

    let disabled = MouseCaptureState::new(false);
    assert!(!disabled.is_enabled());
    assert!(disabled.is_copy_mode());
}

#[test]
fn test_mouse_capture_state_constructors() {
    let enabled = MouseCaptureState::enabled();
    assert!(enabled.is_enabled());

    let disabled = MouseCaptureState::disabled();
    assert!(!disabled.is_enabled());
}

#[test]
fn test_mouse_capture_state_default() {
    let state = MouseCaptureState::default();
    assert!(state.is_enabled());
}

#[test]
fn test_mouse_capture_state_toggle() {
    let mut state = MouseCaptureState::enabled();
    assert!(state.is_enabled());

    let result = state.toggle();
    assert!(!result);
    assert!(!state.is_enabled());
    assert!(state.is_copy_mode());

    let result = state.toggle();
    assert!(result);
    assert!(state.is_enabled());
}

#[test]
fn test_mouse_capture_state_set_enabled() {
    let mut state = MouseCaptureState::enabled();

    state.set_enabled(false);
    assert!(!state.is_enabled());

    state.set_enabled(true);
    assert!(state.is_enabled());
}

#[test]
fn test_enable_mouse_capture() {
    let mut buffer = Vec::new();
    enable_mouse_capture(&mut buffer).unwrap();
    assert!(!buffer.is_empty());
}

#[test]
fn test_disable_mouse_capture() {
    let mut buffer = Vec::new();
    disable_mouse_capture(&mut buffer).unwrap();
    assert!(!buffer.is_empty());
}

#[test]
fn test_toggle_mouse_capture() {
    let mut buffer = Vec::new();
    let mut state = MouseCaptureState::enabled();

    let result = toggle_mouse_capture(&mut buffer, &mut state).unwrap();
    assert!(!result);
    assert!(state.is_copy_mode());

    buffer.clear();
    let result = toggle_mouse_capture(&mut buffer, &mut state).unwrap();
    assert!(result);
    assert!(state.is_enabled());
}

#[test]
fn test_set_mouse_capture() {
    let mut buffer = Vec::new();
    let mut state = MouseCaptureState::enabled();

    set_mouse_capture(&mut buffer, &mut state, true).unwrap();
    assert!(buffer.is_empty());

    set_mouse_capture(&mut buffer, &mut state, false).unwrap();
    assert!(!buffer.is_empty());
    assert!(state.is_copy_mode());
}

#[test]
fn capture_change_picks_the_command() {
    assert_eq!(capture_change(true, true), None);
    assert_eq!(capture_change(false, false), None);
    assert_eq!(capture_change(false, true), Some(CaptureCommand::Enable));
    assert_eq!(capture_change(true, false), Some(CaptureCommand::Disable));
}

#[test]
fn set_and_toggle_send_the_matching_command() {
    let mut enable = Vec::new();
    enable_mouse_capture(&mut enable).unwrap();
    let mut disable = Vec::new();
    disable_mouse_capture(&mut disable).unwrap();
    assert_ne!(enable, disable);

    let mut sent = Vec::new();
    send_capture_command(&mut sent, CaptureCommand::Enable).unwrap();
    assert_eq!(sent, enable);

    let mut buffer = Vec::new();
    let mut state = MouseCaptureState::enabled();
    set_mouse_capture(&mut buffer, &mut state, false).unwrap();
    assert_eq!(buffer, disable);
    buffer.clear();
    assert!(toggle_mouse_capture(&mut buffer, &mut state).unwrap());
    assert_eq!(buffer, enable);
}

#[test]
fn change_to_sets_the_state_and_names_the_command() {
    let mut state = MouseCaptureState::enabled();
    assert_eq!(state.change_to(true), None);
    assert!(state.is_enabled());
    assert_eq!(state.change_to(false), Some(CaptureCommand::Disable));
    assert!(state.is_copy_mode());
    assert_eq!(state.change_to(true), Some(CaptureCommand::Enable));
}
