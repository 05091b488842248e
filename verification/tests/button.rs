use ratatui_interact::components::button::{
    Button, ButtonAction, ButtonState, ButtonStyle, ButtonVariant,
};
use ratatui_interact::{Color, Modifier, Rect};

#[test]
fn button_test_state_default() {
    let state = ButtonState::default();
    assert!(!state.focused);
    assert!(!state.pressed);
    assert!(state.enabled);
    assert!(!state.toggled);
}

#[test]
fn test_state_enabled() {
    let state = ButtonState::enabled();
    assert!(state.enabled);
    assert!(!state.focused);
}

#[test]
fn test_state_disabled() {
    let state = ButtonState::disabled();
    assert!(!state.enabled);
}

#[test]
fn test_state_toggled() {
    let state = ButtonState::toggled(true);
    assert!(state.toggled);
    assert!(state.enabled);
}

#[test]
fn button_test_toggle() {
    let mut state = ButtonState::enabled();
    assert!(!state.toggled);

    state.toggle();
    assert!(state.toggled);

    state.toggle();
    assert!(!state.toggled);
}

#[test]
fn button_test_toggle_disabled() {
    let mut state = ButtonState::disabled();
    state.toggled = false;

    state.toggle();
    assert!(!state.toggled);
}

#[test]
fn test_button_text_single_line() {
    let state = ButtonState::enabled();
    let button = Button::new("Click", &state).variant(ButtonVariant::SingleLine);

    assert_eq!(button.build_text(), " Click ");
}

#[test]
fn test_button_text_with_icon() {
    let state = ButtonState::enabled();
    let button = Button::new("Save", &state).icon("💾");

    assert_eq!(button.build_text(), " 💾 Save ");
}

#[test]
fn test_button_min_width() {
    let state = ButtonState::enabled();

    let button = Button::new("OK", &state).variant(ButtonVariant::SingleLine);
    assert_eq!(button.min_width(), 4);

    let button = Button::new("OK", &state).variant(ButtonVariant::Block);
    assert_eq!(button.min_width(), 6);
}

#[test]
fn test_button_min_height() {
    let state = ButtonState::enabled();

    let button = Button::new("OK", &state).variant(ButtonVariant::SingleLine);
    assert_eq!(button.min_height(), 1);

    let button = Button::new("OK", &state).variant(ButtonVariant::Block);
    assert_eq!(button.min_height(), 3);
}

#[test]
fn button_test_render_stateful() {
    let state = ButtonState::enabled();
    let button = Button::new("Test", &state);

    let area = Rect::new(5, 3, 20, 1);
    let click_region = button.click_region(area);

    assert_eq!(click_region.area.x, 5);
    assert_eq!(click_region.area.y, 3);
    assert_eq!(click_region.data, ButtonAction::Click);
}

#[test]
fn button_test_style_presets() {
    let primary = ButtonStyle::primary();
    assert_eq!(primary.focused_bg, Color::Blue);

    let danger = ButtonStyle::danger();
    assert_eq!(danger.focused_bg, Color::Red);

    let success = ButtonStyle::success();
    assert_eq!(success.focused_bg, Color::Green);
}

#[test]
fn test_style_builder() {
    let style = ButtonStyle::default()
        .variant(ButtonVariant::Toggle)
        .focused(Color::White, Color::Cyan)
        .toggled(Color::Black, Color::Magenta);

    assert_eq!(style.variant, ButtonVariant::Toggle);
    assert_eq!(style.focused_fg, Color::White);
    assert_eq!(style.focused_bg, Color::Cyan);
    assert_eq!(style.toggled_fg, Color::Black);
    assert_eq!(style.toggled_bg, Color::Magenta);
}

#[test]
fn test_current_style_states() {
    let state = ButtonState::disabled();
    let button = Button::new("Test", &state);
    let style = button.current_style();
    assert_eq!(style.fg, Some(button.style.disabled_fg));

    let mut state = ButtonState::enabled();
    state.focused = true;
    let button = Button::new("Test", &state);
    let style = button.current_style();
    assert_eq!(style.fg, Some(button.style.focused_fg));
    assert_eq!(style.bg, Some(button.style.focused_bg));

    let mut state = ButtonState::enabled();
    state.toggled = true;
    let button = Button::new("Test", &state).variant(ButtonVariant::Toggle);
    let style = button.current_style();
    assert_eq!(style.fg, Some(button.style.toggled_fg));
    assert_eq!(style.bg, Some(button.style.toggled_bg));
}

#[test]
fn pressed_and_focused_styles() {
    let mut state = ButtonState::enabled();
    state.pressed = true;
    state.focused = true;
    let button = Button::new("Go", &state);
    let style = button.current_style();
    assert_eq!(style.fg, Some(Color::Black));
    assert_eq!(style.bg, Some(Color::White));
    assert!(style.add_modifier.is_empty());

    state.pressed = false;
    let button = Button::new("Go", &state);
    let style = button.current_style();
    assert!(style.add_modifier.contains(Modifier::bold()));
}

#[test]
fn block_click_region_is_whole_area() {
    let state = ButtonState::enabled();
    let button = Button::new("OK", &state).variant(ButtonVariant::Block).icon("*");
    assert_eq!(button.build_text(), "* OK");
    assert_eq!(button.min_width(), 8);
    let area = Rect::new(2, 2, 10, 3);
    assert_eq!(button.click_region(area).area, area);
}

#[test]
fn narrow_area_cuts_click_region() {
    let state = ButtonState::enabled();
    let button = Button::new("Submit", &state);
    assert_eq!(button.click_region(Rect::new(0, 0, 5, 1)).area, Rect::new(0, 0, 5, 1));
}

#[test]
fn toggle_twice_restores_state() {
    let mut state = ButtonState::toggled(false);
    state.toggle();
    state.toggle();
    assert_eq!(state, ButtonState::toggled(false));
}
