use ratatui_interact::theme::Theme;
use ratatui_interact::Color;

#[test]
fn test_light_theme_differs_from_dark() {
    let dark = Theme::dark();
    let light = Theme::light();

    assert_ne!(dark.palette.text, light.palette.text);
    assert_ne!(dark.palette.primary, light.palette.primary);
    assert_ne!(dark.palette.surface, light.palette.surface);
}

#[test]
fn test_theme_default_is_dark() {
    let default = Theme::default();
    let dark = Theme::dark();
    assert_eq!(default.palette, dark.palette);
}

#[test]
fn test_theme_clone_and_eq() {
    let theme = Theme::dark();
    let cloned = theme.clone();
    assert_eq!(theme, cloned);
}

#[test]
fn test_color_palette_clone_and_eq() {
    let palette = Theme::dark().palette;
    let cloned = palette.clone();
    assert_eq!(palette, cloned);
}

#[test]
fn theme_names_and_key_colors() {
    let dark = Theme::dark();
    assert_eq!(dark.name, "Dark");
    assert_eq!(dark.palette.primary, Color::Yellow);
    assert_eq!(dark.palette.bg, Color::Reset);
    let light = Theme::light();
    assert_eq!(light.name, "Light");
    assert_eq!(light.palette.primary, Color::Blue);
    assert_eq!(light.palette.menu_highlight_bg, Color::Rgb(0, 120, 215));
}
