use ratatui_interact::components::checkbox::{CheckBox, CheckBoxAction, CheckBoxState, CheckBoxStyle};
use ratatui_interact::{Color, Modifier, Rect};

#[test]
fn checkbox_test_state_default() {
    let state = CheckBoxState::default();
    assert!(!state.checked);
    assert!(!state.focused);
    assert!(state.enabled);
}

#[test]
fn checkbox_test_state_new() {
    let state = CheckBoxState::new(true);
    assert!(state.checked);
    assert!(!state.focused);
    assert!(state.enabled);
}

#[test]
fn checkbox_test_toggle() {
    let mut state = CheckBoxState::new(false);
    assert!(!state.checked);

    state.toggle();
    assert!(state.checked);

    state.toggle();
    assert!(!state.checked);
}

#[test]
fn checkbox_test_toggle_disabled() {
    let mut state = CheckBoxState::new(false);
    state.enabled = false;

    state.toggle();
    assert!(!state.checked);
}

#[test]
fn test_set_checked() {
    let mut state = CheckBoxState::new(false);

    state.set_checked(true);
    assert!(state.checked);

    state.set_checked(false);
    assert!(!state.checked);
}

#[test]
fn test_set_checked_disabled() {
    let mut state = CheckBoxState::new(false);
    state.enabled = false;

    state.set_checked(true);
    assert!(!state.checked);
}

#[test]
fn checkbox_test_style_default() {
    let style = CheckBoxStyle::default();
    assert_eq!(style.checked_symbol, "[x]");
    assert_eq!(style.unchecked_symbol, "[ ]");
}

#[test]
fn test_style_unicode() {
    let style = CheckBoxStyle::unicode();
    assert_eq!(style.checked_symbol, "☑");
    assert_eq!(style.unchecked_symbol, "☐");
}

#[test]
fn test_style_checkmark() {
    let style = CheckBoxStyle::checkmark();
    assert_eq!(style.checked_symbol, "✓");
    assert_eq!(style.unchecked_symbol, "○");
}

#[test]
fn test_style_custom() {
    let style = CheckBoxStyle::custom("ON", "OFF");
    assert_eq!(style.checked_symbol, "ON");
    assert_eq!(style.unchecked_symbol, "OFF");
}

#[test]
fn test_checkbox_width() {
    let state = CheckBoxState::new(false);
    let checkbox = CheckBox::new("Test", &state);

    assert_eq!(checkbox.width(), 8);
}

#[test]
fn test_checkbox_width_unicode() {
    let state = CheckBoxState::new(true);
    let checkbox = CheckBox::new("Test", &state).style(CheckBoxStyle::unicode());

    assert_eq!(checkbox.width(), 6);
}

#[test]
fn test_render_basic() {
    let state = CheckBoxState::new(true);
    let checkbox = CheckBox::new("Test", &state);

    let line = checkbox.build_line();
    let content: String = line.iter().map(|(t, _)| t.as_str()).collect();
    assert!(content.contains("[x]"));
}

#[test]
fn checkbox_test_render_stateful() {
    let state = CheckBoxState::new(false);
    let checkbox = CheckBox::new("Click me", &state);

    let area = Rect::new(5, 3, 20, 1);
    let click_region = checkbox.click_region(area);

    assert_eq!(click_region.area.x, 5);
    assert_eq!(click_region.area.y, 3);
    assert_eq!(click_region.data, CheckBoxAction::Toggle);
}

#[test]
fn test_click_region_detection() {
    let state = CheckBoxState::new(false);
    let checkbox = CheckBox::new("Test", &state);

    let area = Rect::new(10, 5, 20, 1);
    let click_region = checkbox.click_region(area);

    assert!(click_region.contains(10, 5));
    assert!(click_region.contains(15, 5));

    assert!(!click_region.contains(9, 5));
    assert!(!click_region.contains(10, 4));
    assert!(!click_region.contains(10, 6));
}

#[test]
fn line_styles_follow_state() {
    let mut state = CheckBoxState::new(true);
    state.focused = true;
    let checkbox = CheckBox::new("Mail", &state);
    let line = checkbox.build_line();
    assert_eq!(line.len(), 3);
    assert_eq!(line[0].0, "[x]");
    assert_eq!(line[1].0, " ");
    assert_eq!(line[2].0, "Mail");
    assert_eq!(line[0].1.fg, Some(Color::Yellow));
    assert!(line[0].1.add_modifier.contains(Modifier::bold()));

    state.focused = false;
    let checkbox = CheckBox::new("Mail", &state);
    assert_eq!(checkbox.build_line()[2].1.fg, Some(Color::Green));

    state.enabled = false;
    let checkbox = CheckBox::new("Mail", &state);
    assert_eq!(checkbox.build_line()[2].1.fg, Some(Color::DarkGray));
}

#[test]
fn click_region_cut_to_area() {
    let state = CheckBoxState::new(false);
    let checkbox = CheckBox::new("A long label", &state);
    assert_eq!(checkbox.click_region(Rect::new(0, 0, 4, 1)).area, Rect::new(0, 0, 4, 1));
}
