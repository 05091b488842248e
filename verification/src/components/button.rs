//! Button: single-line, block, icon and text, toggle and minimal views of
//! a clickable button, with the style each state gets.
use vstd::prelude::*;
use crate::click::ClickRegion;
use crate::focus::FocusId;
use crate::geometry::Rect;
use crate::style::{fg_bg_style, fg_style, with_modifier, Alignment, Color, Modifier, Style};
use crate::text::{concat, string_from_str};

verus! {

/// What a button emits.
#[derive(Debug, Clone, Copy, PartialEq, Eq, Structural)]
pub enum ButtonAction {
    /// The button was clicked or activated.
    Click,
}

/// The state of a button.
#[derive(Debug, Clone, Copy, PartialEq, Eq, Structural)]
pub struct ButtonState {
    pub focused: bool,
    pub pressed: bool,
    pub enabled: bool,
    /// For toggle buttons: whether it is on.
    pub toggled: bool,
}

impl Default for ButtonState {
    fn default() -> (s: Self)
        ensures
            s == (ButtonState { focused: false, pressed: false, enabled: true, toggled: false }),
    {
        ButtonState { focused: false, pressed: false, enabled: true, toggled: false }
    }
}

/// The state after `toggle`: flipped when enabled, unchanged otherwise.
pub open spec fn button_toggled(s: ButtonState) -> ButtonState {
    ButtonState { toggled: if s.enabled { !s.toggled } else { s.toggled }, ..s }
}

/// A second toggle undoes the first.
pub proof fn button_toggle_twice(s: ButtonState)
    ensures
        button_toggled(button_toggled(s)) == s,
{
}

impl ButtonState {
    /// An enabled button, neither focused, pressed nor toggled.
    pub fn enabled() -> (s: Self)
        ensures
            s == (ButtonState { focused: false, pressed: false, enabled: true, toggled: false }),
    {
        ButtonState { focused: false, pressed: false, enabled: true, toggled: false }
    }

    /// A disabled button.
    pub fn disabled() -> (s: Self)
        ensures
            s == (ButtonState { focused: false, pressed: false, enabled: false, toggled: false }),
    {
        ButtonState { focused: false, pressed: false, enabled: false, toggled: false }
    }

    /// An enabled button, toggled as given.
    pub fn toggled(toggled: bool) -> (s: Self)
        ensures
            s == (ButtonState { focused: false, pressed: false, enabled: true, toggled }),
    {
        ButtonState { focused: false, pressed: false, enabled: true, toggled }
    }

    /// Sets whether the button has focus.
    pub fn set_focused(&mut self, focused: bool)
        ensures
            *final(self) == (ButtonState { focused, ..*old(self) }),
    {
        self.focused = focused;
    }

    /// Sets whether the button is pressed.
    pub fn set_pressed(&mut self, pressed: bool)
        ensures
            *final(self) == (ButtonState { pressed, ..*old(self) }),
    {
        self.pressed = pressed;
    }

    /// Sets whether the button is enabled.
    pub fn set_enabled(&mut self, enabled: bool)
        ensures
            *final(self) == (ButtonState { enabled, ..*old(self) }),
    {
        self.enabled = enabled;
    }

    /// Flips the toggle, when the button is enabled.
    pub fn toggle(&mut self)
        ensures
            *final(self) == button_toggled(*old(self)),
    {
        if self.enabled {
            self.toggled = !self.toggled;
        }
    }
}

/// How a button is drawn.
#[derive(Debug, Clone, Copy, PartialEq, Eq, Structural, Default)]
pub enum ButtonVariant {
    /// `[ Text ]` on one line.
    #[default]
    SingleLine,
    /// Inside a border.
    Block,
    /// An icon, then the text.
    IconText,
    /// Highlighted while toggled on.
    Toggle,
    /// Just the text, colored by focus.
    Minimal,
}

/// The colors of a button in each state.
#[derive(Debug, Clone, Copy, PartialEq, Eq, Structural)]
pub struct ButtonStyle {
    pub variant: ButtonVariant,
    pub focused_fg: Color,
    pub focused_bg: Color,
    pub unfocused_fg: Color,
    pub unfocused_bg: Color,
    pub disabled_fg: Color,
    pub pressed_fg: Color,
    pub pressed_bg: Color,
    pub toggled_fg: Color,
    pub toggled_bg: Color,
}

impl ButtonStyle {
    /// The default colors: black on yellow when focused, white on dark gray
    /// otherwise, dark gray when disabled, black on white when pressed,
    /// black on green when toggled; single line.
    pub open spec fn default_spec() -> ButtonStyle {
        ButtonStyle {
            variant: ButtonVariant::SingleLine,
            focused_fg: Color::Black,
            focused_bg: Color::Yellow,
            unfocused_fg: Color::White,
            unfocused_bg: Color::DarkGray,
            disabled_fg: Color::DarkGray,
            pressed_fg: Color::Black,
            pressed_bg: Color::White,
            toggled_fg: Color::Black,
            toggled_bg: Color::Green,
        }
    }

    /// The default colors for `variant`.
    pub fn new(variant: ButtonVariant) -> (s: Self)
        ensures
            s == (ButtonStyle { variant, ..Self::default_spec() }),
    {
        ButtonStyle { variant, ..ButtonStyle::default() }
    }

    /// Sets the variant.
    pub fn variant(self, variant: ButtonVariant) -> (s: Self)
        ensures
            s == (ButtonStyle { variant, ..self }),
    {
        ButtonStyle { variant, ..self }
    }

    /// Sets the focused colors.
    pub fn focused(self, fg: Color, bg: Color) -> (s: Self)
        ensures
            s == (ButtonStyle { focused_fg: fg, focused_bg: bg, ..self }),
    {
        ButtonStyle { focused_fg: fg, focused_bg: bg, ..self }
    }

    /// Sets the unfocused colors.
    pub fn unfocused(self, fg: Color, bg: Color) -> (s: Self)
        ensures
            s == (ButtonStyle { unfocused_fg: fg, unfocused_bg: bg, ..self }),
    {
        ButtonStyle { unfocused_fg: fg, unfocused_bg: bg, ..self }
    }

    /// Sets the toggled colors.
    pub fn toggled(self, fg: Color, bg: Color) -> (s: Self)
        ensures
            s == (ButtonStyle { toggled_fg: fg, toggled_bg: bg, ..self }),
    {
        ButtonStyle { toggled_fg: fg, toggled_bg: bg, ..self }
    }

    /// A prominent style: white on blue when focused, white on a mid blue
    /// otherwise.
    pub fn primary() -> (s: Self)
        ensures
            s == (ButtonStyle {
                focused_fg: Color::White,
                focused_bg: Color::Blue,
                unfocused_fg: Color::White,
                unfocused_bg: Color::Rgb(50, 100, 200),
                ..Self::default_spec()
            }),
    {
        ButtonStyle {
            focused_fg: Color::White,
            focused_bg: Color::Blue,
            unfocused_fg: Color::White,
            unfocused_bg: Color::Rgb(50, 100, 200),
            ..ButtonStyle::default()
        }
    }

    /// A destructive style: white on red when focused, white on a dark red
    /// otherwise.
    pub fn danger() -> (s: Self)
        ensures
            s == (ButtonStyle {
                focused_fg: Color::White,
                focused_bg: Color::Red,
                unfocused_fg: Color::White,
                unfocused_bg: Color::Rgb(150, 50, 50),
                ..Self::default_spec()
            }),
    {
        ButtonStyle {
            focused_fg: Color::White,
            focused_bg: Color::Red,
            unfocused_fg: Color::White,
            unfocused_bg: Color::Rgb(150, 50, 50),
            ..ButtonStyle::default()
        }
    }

    /// A success style: white on green when focused, white on a dark green
    /// otherwise.
    pub fn success() -> (s: Self)
        ensures
            s == (ButtonStyle {
                focused_fg: Color::White,
                focused_bg: Color::Green,
                unfocused_fg: Color::White,
                unfocused_bg: Color::Rgb(50, 150, 50),
                ..Self::default_spec()
            }),
    {
        ButtonStyle {
            focused_fg: Color::White,
            focused_bg: Color::Green,
            unfocused_fg: Color::White,
            unfocused_bg: Color::Rgb(50, 150, 50),
            ..ButtonStyle::default()
        }
    }
}

impl Default for ButtonStyle {
    fn default() -> (s: Self)
        ensures
            s == Self::default_spec(),
    {
        ButtonStyle {
            variant: ButtonVariant::SingleLine,
            focused_fg: Color::Black,
            focused_bg: Color::Yellow,
            unfocused_fg: Color::White,
            unfocused_bg: Color::DarkGray,
            disabled_fg: Color::DarkGray,
            pressed_fg: Color::Black,
            pressed_bg: Color::White,
            toggled_fg: Color::Black,
            toggled_bg: Color::Green,
        }
    }
}

/// A clickable button over a state.
#[derive(Debug, Clone, Copy)]
pub struct Button<'a> {
    pub label: &'a str,
    /// Shown before the label.
    pub icon: Option<&'a str>,
    pub state: &'a ButtonState,
    pub style: ButtonStyle,
    pub focus_id: FocusId,
    pub alignment: Alignment,
}

/// The style a button in state `st` gets: disabled, then pressed, then
/// toggled (toggle buttons only), then focused, then plain.
pub open spec fn button_style_of(st: ButtonState, sty: ButtonStyle) -> Style {
    if !st.enabled {
        fg_style(sty.disabled_fg)
    } else if st.pressed {
        fg_bg_style(sty.pressed_fg, sty.pressed_bg)
    } else if sty.variant == ButtonVariant::Toggle && st.toggled {
        with_modifier(fg_bg_style(sty.toggled_fg, sty.toggled_bg), Modifier { bits: 1 })
    } else if st.focused {
        with_modifier(fg_bg_style(sty.focused_fg, sty.focused_bg), Modifier { bits: 1 })
    } else {
        fg_bg_style(sty.unfocused_fg, sty.unfocused_bg)
    }
}

/// The text of a button: padded with a space on each side for single-line
/// and toggle buttons; the icon, a space, then the label where there is an
/// icon.
pub open spec fn button_text(variant: ButtonVariant, icon: Option<Seq<char>>, label: Seq<char>) -> Seq<char> {
    let body = match icon {
        Some(i) => i + seq![' '] + label,
        None => label,
    };
    if variant is SingleLine || variant is Toggle {
        seq![' '] + body + seq![' ']
    } else {
        body
    }
}

impl<'a> Button<'a> {
    /// The text of the icon, where there is one.
    pub open spec fn icon_view(self) -> Option<Seq<char>> {
        match self.icon {
            Some(i) => Some(i@),
            None => None,
        }
    }

    /// A centered single-line button labelled `label`.
    pub fn new(label: &'a str, state: &'a ButtonState) -> (b: Self)
        ensures
            b.label == label,
            (b.icon is None),
            b.state == state,
            b.style == ButtonStyle::default_spec(),
            b.focus_id == (FocusId { value: 0 }),
            b.alignment == Alignment::Center,
    {
        Button {
            label,
            icon: None,
            state,
            style: ButtonStyle::default(),
            focus_id: FocusId::new(0),
            alignment: Alignment::Center,
        }
    }

    /// Sets the icon shown before the label.
    pub fn icon(self, icon: &'a str) -> (b: Self)
        ensures
            b == (Button { icon: Some(icon), ..self }),
    {
        Button { icon: Some(icon), ..self }
    }

    /// Sets the style.
    pub fn style(self, style: ButtonStyle) -> (b: Self)
        ensures
            b == (Button { style, ..self }),
    {
        Button { style, ..self }
    }

    /// Sets the variant.
    pub fn variant(self, variant: ButtonVariant) -> (b: Self)
        ensures
            b == (Button { style: ButtonStyle { variant, ..self.style }, ..self }),
    {
        Button { style: ButtonStyle { variant, ..self.style }, ..self }
    }

    /// Sets the focus identifier.
    pub fn focus_id(self, id: FocusId) -> (b: Self)
        ensures
            b == (Button { focus_id: id, ..self }),
    {
        Button { focus_id: id, ..self }
    }

    /// Sets the text alignment.
    pub fn alignment(self, alignment: Alignment) -> (b: Self)
        ensures
            b == (Button { alignment, ..self }),
    {
        Button { alignment, ..self }
    }

    /// The style for the button's current state (see `button_style_of`).
    pub fn current_style(&self) -> (s: Style)
        ensures
            s == button_style_of(*self.state, self.style),
    {
        let st = self.state;
        let sty = self.style;
        if !st.enabled {
            Style::new().fg(sty.disabled_fg)
        } else if st.pressed {
            Style::new().fg(sty.pressed_fg).bg(sty.pressed_bg)
        } else if sty.variant == ButtonVariant::Toggle && st.toggled {
            Style::new().fg(sty.toggled_fg).bg(sty.toggled_bg).add_modifier(Modifier::bold())
        } else if st.focused {
            Style::new().fg(sty.focused_fg).bg(sty.focused_bg).add_modifier(Modifier::bold())
        } else {
            Style::new().fg(sty.unfocused_fg).bg(sty.unfocused_bg)
        }
    }

    /// The button's text (see `button_text`).
    pub fn build_text(&self) -> (t: String)
        ensures
            t@ == button_text(self.style.variant, self.icon_view(), self.label@),
    {
        let body = match self.icon {
            Some(i) => {
                let head = concat(i, " ");
                concat(head.as_str(), self.label)
            },
            None => string_from_str(self.label),
        };
        proof {
            reveal_strlit(" ");
        }
        let r = match self.style.variant {
            ButtonVariant::SingleLine | ButtonVariant::Toggle => {
                let head = concat(" ", body.as_str());
                concat(head.as_str(), " ")
            },
            _ => body,
        };
        r
    }

    /// The width the button needs: its text's length in characters (as a
    /// `u16`), plus four for the border and padding of a block button.
    pub fn min_width(&self) -> (w: u16)
        requires
            self.style.variant is Block ==> (button_text(self.style.variant, self.icon_view(), self.label@).len() as u16) + 4 <= u16::MAX,
        ensures
            ({
                let n = button_text(self.style.variant, self.icon_view(), self.label@).len() as u16;
                w == if self.style.variant is Block { (n + 4) as u16 } else { n }
            }),
    {
        let text = self.build_text();
        let n = text.as_str().unicode_len() as u16;
        match self.style.variant {
            ButtonVariant::Block => n + 4,
            _ => n,
        }
    }

    /// The height the button needs: three rows for a block button, one
    /// otherwise.
    pub fn min_height(&self) -> (h: u16)
        ensures
            h == if self.style.variant is Block { 3u16 } else { 1u16 },
    {
        match self.style.variant {
            ButtonVariant::Block => 3,
            _ => 1,
        }
    }

    /// The region that answers clicks when the button is drawn in `area`:
    /// all of it for a block button, otherwise its first row, as wide as
    /// the text (at most the area's width).
    pub fn click_region(&self, area: Rect) -> (r: ClickRegion<ButtonAction>)
        requires
            self.style.variant is Block ==> (button_text(self.style.variant, self.icon_view(), self.label@).len() as u16) + 4 <= u16::MAX,
        ensures
            r.data == ButtonAction::Click,
            r.area == if self.style.variant is Block {
                area
            } else {
                let n = button_text(self.style.variant, self.icon_view(), self.label@).len() as u16;
                Rect::new_spec(area.x, area.y, if n < area.width { n } else { area.width }, 1)
            },
    {
        let click_area = match self.style.variant {
            ButtonVariant::Block => area,
            _ => {
                let w = self.min_width();
                Rect::new(area.x, area.y, if w < area.width { w } else { area.width }, 1)
            },
        };
        ClickRegion::new(click_area, ButtonAction::Click)
    }
}

} // verus!
