use ratatui_interact::components::progress::{progress_label, ProgressStyle};
use ratatui_interact::{Color, Modifier};

#[test]
fn test_progress_label() {
    assert_eq!(progress_label(Some("Building"), None, 75), "Building (75%)");
}

#[test]
fn test_progress_label_with_steps() {
    assert_eq!(progress_label(Some("Processing"), Some((5, 10)), 50), "Processing - 5/10 steps (50%)");
}

#[test]
fn label_with_steps_only_and_bare() {
    assert_eq!(progress_label(None, Some((3, 4)), 75), "3/4 (75%)");
    assert_eq!(progress_label(None, None, 0), "0%");
    assert_eq!(progress_label(None, None, 100), "100%");
}

#[test]
fn style_presets() {
    let d = ProgressStyle::default();
    assert_eq!(d.filled_color, Color::Green);
    assert_eq!(d.unfilled_color, Color::DarkGray);
    assert_eq!(d.label_style.fg, Some(Color::White));
    assert!(d.label_style.add_modifier.contains(Modifier::bold()));
    assert!(d.bordered);
    assert_eq!(ProgressStyle::warning().filled_color, Color::Yellow);
    assert_eq!(ProgressStyle::error().filled_color, Color::Red);
    assert_eq!(ProgressStyle::info().filled_color, Color::Cyan);
    assert_eq!(ProgressStyle::success(), d);
    let c = ProgressStyle::new(Color::Blue, Color::Black).bordered(false);
    assert_eq!(c.filled_color, Color::Blue);
    assert_eq!(c.unfilled_color, Color::Black);
    assert!(!c.bordered);
}
