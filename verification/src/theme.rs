//! Color themes: a palette of semantic color roles that widget styles
//! can be derived from.
use vstd::prelude::*;
use vstd::std_specs::convert::FromSpec;
use crate::style::Color;
use crate::text::string_from_str;

verus! {

/// A palette of semantic color roles.
#[derive(Debug, Clone, Copy, PartialEq, Eq, Structural)]
pub struct ColorPalette {
    /// Focus/selection accent color.
    pub primary: Color,
    /// Secondary accent color.
    pub secondary: Color,
    /// Main text color.
    pub text: Color,
    /// Secondary text, line numbers.
    pub text_dim: Color,
    /// Disabled/inactive text.
    pub text_disabled: Color,
    /// Placeholder text.
    pub text_placeholder: Color,
    /// Shortcuts/hints.
    pub text_muted: Color,
    /// Main background.
    pub bg: Color,
    /// Elevated surface - menus/popups.
    pub surface: Color,
    /// Bar/header background.
    pub surface_raised: Color,
    /// Focused border.
    pub border_focused: Color,
    /// Default border.
    pub border: Color,
    /// Disabled border.
    pub border_disabled: Color,
    /// Accent border - panels.
    pub border_accent: Color,
    /// Dividers/separators.
    pub separator: Color,
    /// Highlighted foreground.
    pub highlight_fg: Color,
    /// Highlighted background.
    pub highlight_bg: Color,
    /// Menu highlight foreground.
    pub menu_highlight_fg: Color,
    /// Menu highlight background.
    pub menu_highlight_bg: Color,
    /// Pressed foreground.
    pub pressed_fg: Color,
    /// Pressed background.
    pub pressed_bg: Color,
    /// Success color.
    pub success: Color,
    /// Warning color.
    pub warning: Color,
    /// Error color.
    pub error: Color,
    /// Info color.
    pub info: Color,
    /// Diff addition foreground.
    pub diff_add_fg: Color,
    /// Diff addition background.
    pub diff_add_bg: Color,
    /// Diff deletion foreground.
    pub diff_del_fg: Color,
    /// Diff deletion background.
    pub diff_del_bg: Color,
}

/// The palette of the dark theme, which matches the widgets' default
/// styles.
pub open spec fn dark_palette() -> ColorPalette {
    ColorPalette {
        primary: Color::Yellow,
        secondary: Color::Cyan,
        text: Color::White,
        text_dim: Color::Gray,
        text_disabled: Color::DarkGray,
        text_placeholder: Color::DarkGray,
        text_muted: Color::Rgb(140, 140, 140),
        bg: Color::Reset,
        surface: Color::Rgb(40, 40, 40),
        surface_raised: Color::Rgb(50, 50, 50),
        border_focused: Color::Yellow,
        border: Color::Gray,
        border_disabled: Color::DarkGray,
        border_accent: Color::Cyan,
        separator: Color::Rgb(80, 80, 80),
        highlight_fg: Color::Black,
        highlight_bg: Color::Yellow,
        menu_highlight_fg: Color::White,
        menu_highlight_bg: Color::Rgb(60, 100, 180),
        pressed_fg: Color::Black,
        pressed_bg: Color::White,
        success: Color::Green,
        warning: Color::Yellow,
        error: Color::Red,
        info: Color::Cyan,
        diff_add_fg: Color::Green,
        diff_add_bg: Color::Rgb(0, 40, 0),
        diff_del_fg: Color::Red,
        diff_del_bg: Color::Rgb(40, 0, 0),
    }
}

/// The palette of the light theme, for light terminal backgrounds.
pub open spec fn light_palette() -> ColorPalette {
    ColorPalette {
        primary: Color::Blue,
        secondary: Color::Rgb(0, 128, 128),
        text: Color::Rgb(30, 30, 30),
        text_dim: Color::Rgb(100, 100, 100),
        text_disabled: Color::Rgb(160, 160, 160),
        text_placeholder: Color::Rgb(160, 160, 160),
        text_muted: Color::Rgb(100, 100, 100),
        bg: Color::Reset,
        surface: Color::Rgb(250, 250, 250),
        surface_raised: Color::Rgb(240, 240, 240),
        border_focused: Color::Blue,
        border: Color::Rgb(180, 180, 180),
        border_disabled: Color::Rgb(200, 200, 200),
        border_accent: Color::Rgb(0, 128, 128),
        separator: Color::Rgb(200, 200, 200),
        highlight_fg: Color::White,
        highlight_bg: Color::Blue,
        menu_highlight_fg: Color::White,
        menu_highlight_bg: Color::Rgb(0, 120, 215),
        pressed_fg: Color::White,
        pressed_bg: Color::Rgb(30, 30, 30),
        success: Color::Rgb(0, 128, 0),
        warning: Color::Rgb(200, 150, 0),
        error: Color::Rgb(200, 0, 0),
        info: Color::Rgb(0, 128, 128),
        diff_add_fg: Color::Rgb(0, 128, 0),
        diff_add_bg: Color::Rgb(220, 255, 220),
        diff_del_fg: Color::Rgb(200, 0, 0),
        diff_del_bg: Color::Rgb(255, 220, 220),
    }
}

/// A named palette.
#[derive(Debug, Clone, PartialEq, Eq)]
pub struct Theme {
    pub name: String,
    pub palette: ColorPalette,
}

impl Theme {
    /// The dark theme, named "Dark".
    pub fn dark() -> (t: Self)
        ensures
            t.name@ == "Dark"@,
            t.palette == dark_palette(),
    {
        Theme {
            name: string_from_str("Dark"),
            palette: ColorPalette {
                primary: Color::Yellow,
                secondary: Color::Cyan,
                text: Color::White,
                text_dim: Color::Gray,
                text_disabled: Color::DarkGray,
                text_placeholder: Color::DarkGray,
                text_muted: Color::Rgb(140, 140, 140),
                bg: Color::Reset,
                surface: Color::Rgb(40, 40, 40),
                surface_raised: Color::Rgb(50, 50, 50),
                border_focused: Color::Yellow,
                border: Color::Gray,
                border_disabled: Color::DarkGray,
                border_accent: Color::Cyan,
                separator: Color::Rgb(80, 80, 80),
                highlight_fg: Color::Black,
                highlight_bg: Color::Yellow,
                menu_highlight_fg: Color::White,
                menu_highlight_bg: Color::Rgb(60, 100, 180),
                pressed_fg: Color::Black,
                pressed_bg: Color::White,
                success: Color::Green,
                warning: Color::Yellow,
                error: Color::Red,
                info: Color::Cyan,
                diff_add_fg: Color::Green,
                diff_add_bg: Color::Rgb(0, 40, 0),
                diff_del_fg: Color::Red,
                diff_del_bg: Color::Rgb(40, 0, 0),
            },
        }
    }

    /// The light theme, named "Light".
    pub fn light() -> (t: Self)
        ensures
            t.name@ == "Light"@,
            t.palette == light_palette(),
    {
        Theme {
            name: string_from_str("Light"),
            palette: ColorPalette {
                primary: Color::Blue,
                secondary: Color::Rgb(0, 128, 128),
                text: Color::Rgb(30, 30, 30),
                text_dim: Color::Rgb(100, 100, 100),
                text_disabled: Color::Rgb(160, 160, 160),
                text_placeholder: Color::Rgb(160, 160, 160),
                text_muted: Color::Rgb(100, 100, 100),
                bg: Color::Reset,
                surface: Color::Rgb(250, 250, 250),
                surface_raised: Color::Rgb(240, 240, 240),
                border_focused: Color::Blue,
                border: Color::Rgb(180, 180, 180),
                border_disabled: Color::Rgb(200, 200, 200),
                border_accent: Color::Rgb(0, 128, 128),
                separator: Color::Rgb(200, 200, 200),
                highlight_fg: Color::White,
                highlight_bg: Color::Blue,
                menu_highlight_fg: Color::White,
                menu_highlight_bg: Color::Rgb(0, 120, 215),
                pressed_fg: Color::White,
                pressed_bg: Color::Rgb(30, 30, 30),
                success: Color::Rgb(0, 128, 0),
                warning: Color::Rgb(200, 150, 0),
                error: Color::Rgb(200, 0, 0),
                info: Color::Rgb(0, 128, 128),
                diff_add_fg: Color::Rgb(0, 128, 0),
                diff_add_bg: Color::Rgb(220, 255, 220),
                diff_del_fg: Color::Rgb(200, 0, 0),
                diff_del_bg: Color::Rgb(255, 220, 220),
            },
        }
    }

    /// A widget style derived from this theme through its `From<&Theme>`.
    pub fn style<S: for<'a> From<&'a Theme>>(&self) -> (s: S)
        ensures
            S::obeys_from_spec() ==> s == S::from_spec(self),
    {
        S::from(self)
    }
}

impl Default for Theme {
    fn default() -> (t: Self)
        ensures
            t.name@ == "Dark"@,
            t.palette == dark_palette(),
    {
        Self::dark()
    }
}

} // verus!
