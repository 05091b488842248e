use ratatui_interact::components::toast::{toast_size_fits, Toast, ToastState, ToastStyle};
use ratatui_interact::{Color, Rect};

#[test]
fn test_toast_state_lifecycle() {
    let mut state = ToastState::new();

    assert!(state.get_message().is_none());
    assert!(!state.is_visible());

    state.show("Test message", 100_000);
    assert!(state.is_visible());
    assert_eq!(state.get_message(), Some("Test message"));

    state.clear();
    assert!(!state.is_visible());
}

#[test]
fn test_toast_style_detection() {
    assert_eq!(ToastStyle::from_message("error occurred"), ToastStyle::Error);
    assert_eq!(ToastStyle::from_message("File saved"), ToastStyle::Success);
    assert_eq!(ToastStyle::from_message("Warning: low disk"), ToastStyle::Warning);
    assert_eq!(ToastStyle::from_message("Hello world"), ToastStyle::Info);
}

#[test]
fn test_toast_style_colors() {
    assert_eq!(ToastStyle::Info.border_color(), Color::Cyan);
    assert_eq!(ToastStyle::Success.border_color(), Color::Green);
    assert_eq!(ToastStyle::Warning.border_color(), Color::Yellow);
    assert_eq!(ToastStyle::Error.border_color(), Color::Red);
}

#[test]
fn test_toast_area_calculation() {
    let toast = Toast::new("Hello");
    let area = Rect::new(0, 0, 100, 50);
    let toast_area = toast.calculate_area(area);

    assert!(toast_area.x > 0);
    assert!(toast_area.x + toast_area.width <= area.width);

    assert_eq!(toast_area.y, 3);
}

#[test]
fn test_toast_render() {
    let toast = Toast::new("Test toast message");
    let area = toast.calculate_area(Rect::new(0, 0, 60, 20));
    let text_area = toast.text_area(area);
    assert!(text_area.width > 0);
    assert_eq!(toast.border_color(), Color::Cyan);
    assert!(toast.message.contains("Test"));
}

#[test]
fn toast_shown_until_expiry_only() {
    let mut state = ToastState::new();
    state.show_at("Saved", 1_000, 500);
    assert_eq!(state.message_at(1_000), Some("Saved"));
    assert_eq!(state.message_at(1_499), Some("Saved"));
    assert_eq!(state.message_at(1_500), None);
    state.clear_if_expired_at(1_499);
    assert_eq!(state.message_at(1_000), Some("Saved"));
    state.clear_if_expired_at(1_500);
    assert_eq!(state.message_at(1_000), None);
}

#[test]
fn toast_size_follows_message() {
    let toast = Toast::new("Hello");
    let a = toast.calculate_area(Rect::new(0, 0, 100, 50));
    assert_eq!(a.width, 20);
    assert_eq!(a.height, 3);
    assert_eq!(a.x, 40);
    let error = Toast::new("error: disk full");
    assert_eq!(error.border_color(), Color::Red);
    assert_eq!(error.style(ToastStyle::Info).border_color(), Color::Cyan);
}

#[test]
fn toast_size_fits_except_for_huge_messages() {
    assert!(toast_size_fits(11, 80, 80));
    assert!(toast_size_fits(0, 0, 0));
    assert!(!toast_size_fits(usize::MAX - 2, 80, 80));
    assert!(toast_size_fits(2_000_000, 80, 80));
    assert!(!toast_size_fits(4_587_450, 80, 80));
}
