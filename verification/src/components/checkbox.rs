//! Checkbox: a toggleable box with a label, its symbols and colors.
use vstd::prelude::*;
use crate::click::ClickRegion;
use crate::focus::FocusId;
use crate::geometry::Rect;
use crate::style::{fg_style, with_modifier, spans_match, Color, Modifier, Style};
use crate::text::string_from_str;

verus! {

/// What a checkbox emits.
#[derive(Debug, Clone, Copy, PartialEq, Eq, Structural)]
pub enum CheckBoxAction {
    /// Flip the checkbox.
    Toggle,
}

/// The state of a checkbox.
#[derive(Debug, Clone, Copy, PartialEq, Eq, Structural)]
pub struct CheckBoxState {
    pub checked: bool,
    pub focused: bool,
    /// Whether it can be toggled.
    pub enabled: bool,
}

impl Default for CheckBoxState {
    fn default() -> (s: Self)
        ensures
            s == (CheckBoxState { checked: false, focused: false, enabled: true }),
    {
        CheckBoxState { checked: false, focused: false, enabled: true }
    }
}

/// The state after `toggle`: flipped when enabled, unchanged otherwise.
pub open spec fn checkbox_toggled(s: CheckBoxState) -> CheckBoxState {
    CheckBoxState { checked: if s.enabled { !s.checked } else { s.checked }, ..s }
}

/// A second toggle undoes the first.
pub proof fn checkbox_toggle_twice(s: CheckBoxState)
    ensures
        checkbox_toggled(checkbox_toggled(s)) == s,
{
}

impl CheckBoxState {
    /// An enabled, unfocused checkbox, checked as given.
    pub fn new(checked: bool) -> (s: Self)
        ensures
            s == (CheckBoxState { checked, focused: false, enabled: true }),
    {
        CheckBoxState { checked, focused: false, enabled: true }
    }

    /// Flips the checkbox, when it is enabled.
    pub fn toggle(&mut self)
        ensures
            *final(self) == checkbox_toggled(*old(self)),
    {
        if self.enabled {
            self.checked = !self.checked;
        }
    }

    /// Sets the checkbox, when it is enabled.
    pub fn set_checked(&mut self, checked: bool)
        ensures
            *final(self) == (CheckBoxState {
                checked: if old(self).enabled { checked } else { old(self).checked },
                ..*old(self)
            }),
    {
        if self.enabled {
            self.checked = checked;
        }
    }

    /// Sets whether the checkbox has focus.
    pub fn set_focused(&mut self, focused: bool)
        ensures
            *final(self) == (CheckBoxState { focused, ..*old(self) }),
    {
        self.focused = focused;
    }

    /// Sets whether the checkbox is enabled.
    pub fn set_enabled(&mut self, enabled: bool)
        ensures
            *final(self) == (CheckBoxState { enabled, ..*old(self) }),
    {
        self.enabled = enabled;
    }
}

/// The symbols and colors of a checkbox.
#[derive(Debug, Clone, Copy, PartialEq, Eq)]
pub struct CheckBoxStyle {
    pub checked_symbol: &'static str,
    pub unchecked_symbol: &'static str,
    pub focused_fg: Color,
    pub unfocused_fg: Color,
    pub disabled_fg: Color,
    /// Used when checked and not focused.
    pub checked_fg: Color,
}

impl CheckBoxStyle {
    /// The symbols `[x]` and `[ ]`; yellow when focused, white otherwise,
    /// dark gray when disabled, green when checked.
    pub fn ascii() -> (s: Self)
        ensures
            s.checked_symbol@ == "[x]"@,
            s.unchecked_symbol@ == "[ ]"@,
            s.focused_fg == Color::Yellow,
            s.unfocused_fg == Color::White,
            s.disabled_fg == Color::DarkGray,
            s.checked_fg == Color::Green,
    {
        CheckBoxStyle {
            checked_symbol: "[x]",
            unchecked_symbol: "[ ]",
            focused_fg: Color::Yellow,
            unfocused_fg: Color::White,
            disabled_fg: Color::DarkGray,
            checked_fg: Color::Green,
        }
    }

    /// The symbols `☑` and `☐`, default colors.
    pub fn unicode() -> (s: Self)
        ensures
            s.checked_symbol@ == "☑"@,
            s.unchecked_symbol@ == "☐"@,
            s.focused_fg == Color::Yellow,
            s.unfocused_fg == Color::White,
            s.disabled_fg == Color::DarkGray,
            s.checked_fg == Color::Green,
    {
        Self::custom("☑", "☐")
    }

    /// The symbols `✓` and `○`, default colors.
    pub fn checkmark() -> (s: Self)
        ensures
            s.checked_symbol@ == "✓"@,
            s.unchecked_symbol@ == "○"@,
            s.focused_fg == Color::Yellow,
            s.unfocused_fg == Color::White,
            s.disabled_fg == Color::DarkGray,
            s.checked_fg == Color::Green,
    {
        Self::custom("✓", "○")
    }

    /// The given symbols, default colors.
    pub fn custom(checked: &'static str, unchecked: &'static str) -> (s: Self)
        ensures
            s.checked_symbol == checked,
            s.unchecked_symbol == unchecked,
            s.focused_fg == Color::Yellow,
            s.unfocused_fg == Color::White,
            s.disabled_fg == Color::DarkGray,
            s.checked_fg == Color::Green,
    {
        CheckBoxStyle { checked_symbol: checked, unchecked_symbol: unchecked, ..Self::ascii() }
    }

    /// Sets the focused color.
    pub fn focused_fg(self, color: Color) -> (s: Self)
        ensures
            s == (CheckBoxStyle { focused_fg: color, ..self }),
    {
        CheckBoxStyle { focused_fg: color, ..self }
    }

    /// Sets the unfocused color.
    pub fn unfocused_fg(self, color: Color) -> (s: Self)
        ensures
            s == (CheckBoxStyle { unfocused_fg: color, ..self }),
    {
        CheckBoxStyle { unfocused_fg: color, ..self }
    }

    /// Sets the disabled color.
    pub fn disabled_fg(self, color: Color) -> (s: Self)
        ensures
            s == (CheckBoxStyle { disabled_fg: color, ..self }),
    {
        CheckBoxStyle { disabled_fg: color, ..self }
    }

    /// Sets the checked color.
    pub fn checked_fg(self, color: Color) -> (s: Self)
        ensures
            s == (CheckBoxStyle { checked_fg: color, ..self }),
    {
        CheckBoxStyle { checked_fg: color, ..self }
    }
}

impl Default for CheckBoxStyle {
    fn default() -> (s: Self)
        ensures
            s.checked_symbol@ == "[x]"@,
            s.unchecked_symbol@ == "[ ]"@,
            s.focused_fg == Color::Yellow,
            s.unfocused_fg == Color::White,
            s.disabled_fg == Color::DarkGray,
            s.checked_fg == Color::Green,
    {
        Self::ascii()
    }
}

/// A checkbox with a label over a state.
#[derive(Debug, Clone, Copy)]
pub struct CheckBox<'a> {
    pub label: &'a str,
    pub state: &'a CheckBoxState,
    pub style: CheckBoxStyle,
    pub focus_id: FocusId,
}

/// The symbol shown for state `st`.
pub open spec fn checkbox_symbol(st: CheckBoxState, sty: CheckBoxStyle) -> Seq<char> {
    if st.checked { sty.checked_symbol@ } else { sty.unchecked_symbol@ }
}

/// The style of a checkbox in state `st`: the disabled color, else the
/// focused color (bold), else the checked color, else the unfocused color.
pub open spec fn checkbox_style_of(st: CheckBoxState, sty: CheckBoxStyle) -> Style {
    let fg = if !st.enabled {
        sty.disabled_fg
    } else if st.focused {
        sty.focused_fg
    } else if st.checked {
        sty.checked_fg
    } else {
        sty.unfocused_fg
    };
    if st.focused && st.enabled { with_modifier(fg_style(fg), Modifier { bits: 1 }) } else { fg_style(fg) }
}

impl<'a> CheckBox<'a> {
    /// A checkbox labelled `label` with the default style.
    pub fn new(label: &'a str, state: &'a CheckBoxState) -> (c: Self)
        ensures
            c.label == label,
            c.state == state,
            c.style.checked_symbol@ == "[x]"@,
            c.style.unchecked_symbol@ == "[ ]"@,
            c.style.focused_fg == Color::Yellow,
            c.style.unfocused_fg == Color::White,
            c.style.disabled_fg == Color::DarkGray,
            c.style.checked_fg == Color::Green,
            c.focus_id == (FocusId { value: 0 }),
    {
        CheckBox { label, state, style: CheckBoxStyle::ascii(), focus_id: FocusId::new(0) }
    }

    /// Sets the style.
    pub fn style(self, style: CheckBoxStyle) -> (c: Self)
        ensures
            c == (CheckBox { style, ..self }),
    {
        CheckBox { style, ..self }
    }

    /// Sets the focus identifier.
    pub fn focus_id(self, id: FocusId) -> (c: Self)
        ensures
            c == (CheckBox { focus_id: id, ..self }),
    {
        CheckBox { focus_id: id, ..self }
    }

    /// The spans of the checkbox's line: the symbol, a space and the label,
    /// all in the state's style.
    pub fn build_line(&self) -> (r: Vec<(String, Style)>)
        ensures
            ({
                let st = checkbox_style_of(*self.state, self.style);
                spans_match(r@, seq![(checkbox_symbol(*self.state, self.style), st), (seq![' '], st), (self.label@, st)])
            }),
    {
        let st = self.state;
        let sty = self.style;
        let symbol = if st.checked { sty.checked_symbol } else { sty.unchecked_symbol };
        let fg = if !st.enabled {
            sty.disabled_fg
        } else if st.focused {
            sty.focused_fg
        } else if st.checked {
            sty.checked_fg
        } else {
            sty.unfocused_fg
        };
        let mut style = Style::new().fg(fg);
        if st.focused && st.enabled {
            style = style.add_modifier(Modifier::bold());
        }
        proof {
            reveal_strlit(" ");
        }
        let mut r: Vec<(String, Style)> = Vec::new();
        r.push((string_from_str(symbol), style));
        r.push((string_from_str(" "), style));
        r.push((string_from_str(self.label), style));
        let ghost e = seq![(checkbox_symbol(*self.state, self.style), style), (seq![' '], style), (self.label@, style)];
        assert(r@[0].0@ == e[0].0 && r@[1].0@ == e[1].0 && r@[2].0@ == e[2].0);
        r
    }

    /// The width of the line: the symbol's and the label's lengths in
    /// characters and one for the space, as a `u16`.
    pub fn width(&self) -> (w: u16)
        requires
            checkbox_symbol(*self.state, self.style).len() + 1 + self.label@.len() <= usize::MAX,
        ensures
            w == (checkbox_symbol(*self.state, self.style).len() + 1 + self.label@.len()) as u16,
    {
        let symbol = if self.state.checked { self.style.checked_symbol } else { self.style.unchecked_symbol };
        let n = symbol.unicode_len() + 1 + self.label.unicode_len();
        n as u16
    }

    /// The region that answers clicks when the checkbox is drawn in
    /// `area`: its first row, as wide as the line (at most the area's
    /// width).
    pub fn click_region(&self, area: Rect) -> (r: ClickRegion<CheckBoxAction>)
        requires
            checkbox_symbol(*self.state, self.style).len() + 1 + self.label@.len() <= usize::MAX,
        ensures
            r.data == CheckBoxAction::Toggle,
            ({
                let n = (checkbox_symbol(*self.state, self.style).len() + 1 + self.label@.len()) as u16;
                r.area == Rect::new_spec(area.x, area.y, if n < area.width { n } else { area.width }, 1)
            }),
    {
        let w = self.width();
        let click_area = Rect::new(area.x, area.y, if w < area.width { w } else { area.width }, 1);
        ClickRegion::new(click_area, CheckBoxAction::Toggle)
    }
}

} // verus!
