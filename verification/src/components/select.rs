//! Select: a dropdown select box, closed as a single line, open as a list
//! of options placed below (or above) it.
use vstd::prelude::*;
use crate::click::{rect_contains, regions_fit, ClickRegion};
use crate::event::{KeyCode, KeyEvent, MouseButton, MouseEvent, MouseEventKind};
use crate::focus::FocusId;
use crate::geometry::{block_inner, bordered_inner, sat_sub16, Rect};
use vstd::string::*;
use crate::style::{fg, fg_bg, fg_style, fg_bg_style, with_modifier, Color, Modifier, Style};
use crate::text::{concat, take_at_most, take_chars};

verus! {

/// What a select interaction asks for.
#[derive(Debug, Clone, Copy, PartialEq, Eq, Structural)]
pub enum SelectAction {
    /// Focus the select (a click on the closed box).
    Focus,
    /// Open the dropdown.
    Open,
    /// Close the dropdown without selecting.
    Close,
    /// The option at this index was selected.
    Select(usize),
}

/// State of a select box.
#[derive(Debug, Clone, Copy)]
pub struct SelectState {
    pub selected_index: Option<usize>,
    pub is_open: bool,
    pub focused: bool,
    pub enabled: bool,
    /// The option highlighted in the open dropdown.
    pub highlighted_index: usize,
    /// The first option shown in the dropdown.
    pub scroll_offset: u16,
    pub total_options: usize,
}

/// The state `new(total)` builds.
pub open spec fn select_state_new(total: usize) -> SelectState {
    SelectState {
        selected_index: None,
        is_open: false,
        focused: false,
        enabled: true,
        highlighted_index: 0,
        scroll_offset: 0,
        total_options: total,
    }
}

/// The highlight after `highlight_next`.
pub open spec fn next_highlight(h: usize, total: usize) -> usize {
    if h + 1 < total { (h + 1) as usize } else { h }
}

/// The highlight after `highlight_prev`.
pub open spec fn prev_highlight(h: usize) -> usize {
    if h > 0 { (h - 1) as usize } else { h }
}

/// The highlight after `k` calls of `highlight_next`.
pub open spec fn advance_highlight(h: usize, total: usize, k: nat) -> usize
    decreases k,
{
    if k == 0 { h } else { next_highlight(advance_highlight(h, total, (k - 1) as nat), total) }
}

/// The highlight after `k` calls of `highlight_prev`.
pub open spec fn retreat_highlight(h: usize, k: nat) -> usize
    decreases k,
{
    if k == 0 { h } else { prev_highlight(retreat_highlight(h, (k - 1) as nat)) }
}

/// The scroll offset after `ensure_visible(viewport)`.
pub open spec fn scroll_to_highlight(h: usize, scroll: u16, viewport: usize) -> u16 {
    if viewport == 0 {
        scroll
    } else if h < scroll {
        h as u16
    } else if h >= scroll + viewport {
        (h - viewport + 1) as u16
    } else {
        scroll
    }
}

/// The state after `open`.
pub open spec fn opened(s: SelectState) -> SelectState {
    if s.enabled {
        SelectState {
            is_open: true,
            highlighted_index: match s.selected_index {
                Some(i) => i,
                None => s.highlighted_index,
            },
            ..s
        }
    } else {
        s
    }
}

/// The state after `select(index)`.
pub open spec fn selected_at(s: SelectState, index: usize) -> SelectState {
    if index < s.total_options {
        SelectState { selected_index: Some(index), highlighted_index: index, is_open: false, ..s }
    } else {
        SelectState { is_open: false, ..s }
    }
}

impl SelectState {
    /// A closed, enabled, unfocused select over `total_options` options,
    /// with nothing selected.
    pub fn new(total_options: usize) -> (s: Self)
        ensures
            s == select_state_new(total_options),
    {
        SelectState {
            selected_index: None,
            is_open: false,
            focused: false,
            enabled: true,
            highlighted_index: 0,
            scroll_offset: 0,
            total_options,
        }
    }

    /// As `new`, with `selected` selected and highlighted when it is a
    /// valid index.
    pub fn with_selected(total_options: usize, selected: usize) -> (s: Self)
        ensures
            selected < total_options ==> s == (SelectState {
                selected_index: Some(selected),
                highlighted_index: selected,
                ..select_state_new(total_options)
            }),
            selected >= total_options ==> s == select_state_new(total_options),
    {
        let mut state = Self::new(total_options);
        if selected < total_options {
            state.selected_index = Some(selected);
            state.highlighted_index = selected;
        }
        state
    }

    /// Opens the dropdown, highlighting the selected option. Nothing
    /// happens while disabled.
    pub fn open(&mut self)
        ensures
            *final(self) == opened(*old(self)),
    {
        if self.enabled {
            self.is_open = true;
            if let Some(idx) = self.selected_index {
                self.highlighted_index = idx;
            }
        }
    }

    /// Closes the dropdown.
    pub fn close(&mut self)
        ensures
            *final(self) == (SelectState { is_open: false, ..*old(self) }),
    {
        self.is_open = false;
    }

    /// Closes an open dropdown, opens a closed one.
    pub fn toggle(&mut self)
        ensures
            *final(self) == if old(self).is_open {
                SelectState { is_open: false, ..*old(self) }
            } else {
                opened(*old(self))
            },
    {
        if self.is_open {
            self.close();
        } else {
            self.open();
        }
    }

    /// Moves the highlight up one option, stopping at the first.
    pub fn highlight_prev(&mut self)
        ensures
            *final(self) == (SelectState {
                highlighted_index: prev_highlight(old(self).highlighted_index),
                ..*old(self)
            }),
    {
        if self.highlighted_index > 0 {
            self.highlighted_index -= 1;
        }
    }

    /// Moves the highlight down one option, stopping at the last.
    pub fn highlight_next(&mut self)
        ensures
            *final(self) == (SelectState {
                highlighted_index: next_highlight(old(self).highlighted_index, old(self).total_options),
                ..*old(self)
            }),
    {
        if self.total_options > 0 && self.highlighted_index < self.total_options - 1 {
            self.highlighted_index += 1;
        }
    }

    /// Highlights the first option and scrolls to the top.
    pub fn highlight_first(&mut self)
        ensures
            *final(self) == (SelectState { highlighted_index: 0, scroll_offset: 0, ..*old(self) }),
    {
        self.highlighted_index = 0;
        self.scroll_offset = 0;
    }

    /// Highlights the last option, if there is one.
    pub fn highlight_last(&mut self)
        ensures
            old(self).total_options > 0 ==> *final(self) == (SelectState {
                highlighted_index: (old(self).total_options - 1) as usize,
                ..*old(self)
            }),
            old(self).total_options == 0 ==> *final(self) == *old(self),
    {
        if self.total_options > 0 {
            self.highlighted_index = self.total_options - 1;
        }
    }

    /// Selects the highlighted option (when there are options) and closes.
    pub fn select_highlighted(&mut self)
        ensures
            *final(self) == (SelectState {
                selected_index: if old(self).total_options > 0 {
                    Some(old(self).highlighted_index)
                } else {
                    old(self).selected_index
                },
                is_open: false,
                ..*old(self)
            }),
    {
        if self.total_options > 0 {
            self.selected_index = Some(self.highlighted_index);
        }
        self.close();
    }

    /// Selects and highlights the option at `index` when it is valid, and
    /// closes.
    pub fn select(&mut self, index: usize)
        ensures
            *final(self) == selected_at(*old(self), index),
    {
        if index < self.total_options {
            self.selected_index = Some(index);
            self.highlighted_index = index;
        }
        self.close();
    }

    /// Removes the selection.
    pub fn clear_selection(&mut self)
        ensures
            *final(self) == (SelectState { selected_index: None, ..*old(self) }),
    {
        self.selected_index = None;
    }

    /// Changes the number of options, pulling the selection and the
    /// highlight back onto the last option when they fall off the end (the
    /// selection is dropped when no option is left).
    pub fn set_total(&mut self, total: usize)
        ensures
            *final(self) == (SelectState {
                total_options: total,
                selected_index: match old(self).selected_index {
                    Some(i) => if i < total {
                        Some(i)
                    } else if total > 0 {
                        Some((total - 1) as usize)
                    } else {
                        None
                    },
                    None => None,
                },
                highlighted_index: if old(self).highlighted_index >= total && total > 0 {
                    (total - 1) as usize
                } else {
                    old(self).highlighted_index
                },
                ..*old(self)
            }),
    {
        self.total_options = total;
        if let Some(idx) = self.selected_index {
            if idx >= total {
                self.selected_index = if total > 0 {
                    Some(total - 1)
                } else {
                    None
                };
            }
        }
        if self.highlighted_index >= total && total > 0 {
            self.highlighted_index = total - 1;
        }
    }

    /// Scrolls so that the highlighted option is among the
    /// `viewport_height` options shown.
    pub fn ensure_visible(&mut self, viewport_height: usize)
        ensures
            *final(self) == (SelectState {
                scroll_offset: scroll_to_highlight(
                    old(self).highlighted_index,
                    old(self).scroll_offset,
                    viewport_height,
                ),
                ..*old(self)
            }),
    {
        if viewport_height == 0 {
            return;
        }
        if self.highlighted_index < self.scroll_offset as usize {
            self.scroll_offset = self.highlighted_index as u16;
        } else if self.highlighted_index - self.scroll_offset as usize >= viewport_height {
            self.scroll_offset = (self.highlighted_index - viewport_height + 1) as u16;
        }
    }

    /// The selected index.
    pub fn selected(&self) -> (r: Option<usize>)
        ensures
            r == self.selected_index,
    {
        self.selected_index
    }

    /// Whether an option is selected.
    pub fn has_selection(&self) -> (b: bool)
        ensures
            b == self.selected_index is Some,
    {
        self.selected_index.is_some()
    }
}

impl Default for SelectState {
    fn default() -> (s: Self)
        ensures
            s == select_state_new(0),
    {
        Self::new(0)
    }
}

/// Colors, indicators and size of a select box and its dropdown.
#[derive(Debug, Clone, Copy)]
pub struct SelectStyle {
    pub focused_border: Color,
    pub unfocused_border: Color,
    pub disabled_border: Color,
    /// Color of the selected option's text in the closed box.
    pub text_fg: Color,
    pub placeholder_fg: Color,
    /// Shown at the right of the closed box.
    pub dropdown_indicator: &'static str,
    /// Style of the highlighted option in the dropdown.
    pub highlight_style: Style,
    /// Style of the other options in the dropdown.
    pub option_style: Style,
    /// Put before the selected option.
    pub selected_indicator: &'static str,
    /// Put before the other options.
    pub unselected_indicator: &'static str,
    pub dropdown_border: Color,
    /// The most options the dropdown shows at once.
    pub max_visible_options: u16,
}

/// Bold, as a modifier set.
pub open spec fn bold_mod() -> Modifier {
    Modifier { bits: 1 }
}

/// Every field of `s` but the indicators has its default value.
pub open spec fn select_style_default_fields(s: SelectStyle) -> bool {
    &&& s.focused_border == Color::Yellow
    &&& s.unfocused_border == Color::Gray
    &&& s.disabled_border == Color::DarkGray
    &&& s.text_fg == Color::White
    &&& s.placeholder_fg == Color::DarkGray
    &&& s.highlight_style == with_modifier(fg_bg_style(Color::Black, Color::Yellow), bold_mod())
    &&& s.option_style == fg_style(Color::White)
    &&& s.dropdown_border == Color::Cyan
    &&& s.max_visible_options == 8
}

impl Default for SelectStyle {
    fn default() -> (s: Self)
        ensures
            select_style_default_fields(s),
            s.dropdown_indicator@ == "▼"@,
            s.selected_indicator@ == "✓ "@,
            s.unselected_indicator@ == "  "@,
    {
        SelectStyle {
            focused_border: Color::Yellow,
            unfocused_border: Color::Gray,
            disabled_border: Color::DarkGray,
            text_fg: Color::White,
            placeholder_fg: Color::DarkGray,
            dropdown_indicator: "▼",
            highlight_style: fg_bg(Color::Black, Color::Yellow).add_modifier(Modifier::bold()),
            option_style: fg(Color::White),
            selected_indicator: "✓ ",
            unselected_indicator: "  ",
            dropdown_border: Color::Cyan,
            max_visible_options: 8,
        }
    }
}

impl SelectStyle {
    /// The default style with a bold yellow highlight and no background.
    pub fn minimal() -> (s: Self)
        ensures
            select_style_default_fields(SelectStyle { highlight_style: with_modifier(fg_bg_style(Color::Black, Color::Yellow), bold_mod()), ..s }),
            s.highlight_style == with_modifier(fg_style(Color::Yellow), bold_mod()),
            s.dropdown_indicator@ == "▼"@,
            s.selected_indicator@ == "✓ "@,
            s.unselected_indicator@ == "  "@,
    {
        let mut s = Self::default();
        s.highlight_style = fg(Color::Yellow).add_modifier(Modifier::bold());
        s
    }

    /// The default style with an arrow before the selected option.
    pub fn arrow() -> (s: Self)
        ensures
            select_style_default_fields(s),
            s.dropdown_indicator@ == "▼"@,
            s.selected_indicator@ == "→ "@,
            s.unselected_indicator@ == "  "@,
    {
        let mut s = Self::default();
        s.selected_indicator = "→ ";
        s.unselected_indicator = "  ";
        s
    }

    /// The default style with check boxes before the options.
    pub fn bracket() -> (s: Self)
        ensures
            select_style_default_fields(s),
            s.dropdown_indicator@ == "▼"@,
            s.selected_indicator@ == "[x] "@,
            s.unselected_indicator@ == "[ ] "@,
    {
        let mut s = Self::default();
        s.selected_indicator = "[x] ";
        s.unselected_indicator = "[ ] ";
        s
    }

    /// Sets the most options shown at once.
    pub fn max_options(self, max: u16) -> (s: Self)
        ensures
            s == (SelectStyle { max_visible_options: max, ..self }),
    {
        SelectStyle { max_visible_options: max, ..self }
    }

    /// Sets the border color used with focus.
    pub fn focused_border(self, color: Color) -> (s: Self)
        ensures
            s == (SelectStyle { focused_border: color, ..self }),
    {
        SelectStyle { focused_border: color, ..self }
    }

    /// Sets the border color used without focus.
    pub fn unfocused_border(self, color: Color) -> (s: Self)
        ensures
            s == (SelectStyle { unfocused_border: color, ..self }),
    {
        SelectStyle { unfocused_border: color, ..self }
    }

    /// Sets the dropdown indicator.
    pub fn indicator(self, indicator: &'static str) -> (s: Self)
        ensures
            s == (SelectStyle { dropdown_indicator: indicator, ..self }),
    {
        SelectStyle { dropdown_indicator: indicator, ..self }
    }

    /// Sets the style of the highlighted option.
    pub fn highlight(self, style: Style) -> (s: Self)
        ensures
            s == (SelectStyle { highlight_style: style, ..self }),
    {
        SelectStyle { highlight_style: style, ..self }
    }
}

/// One row of the open dropdown: where it goes, what it shows, and the
/// option it stands for.
#[derive(Debug, Clone)]
pub struct DropdownRow {
    pub area: Rect,
    pub text: String,
    pub style: Style,
    pub index: usize,
}

/// The select widget: options, state and style, with the function that
/// turns an option into its label.
pub struct Select<'a, T, F: Fn(&T) -> String> {
    pub options: &'a [T],
    pub state: &'a SelectState,
    pub style: SelectStyle,
    /// Shown in the closed box when nothing is selected.
    pub placeholder: &'a str,
    /// Shown in the top border.
    pub label: Option<&'a str>,
    pub render_option: F,
    pub focus_id: FocusId,
}

/// The area of the open dropdown: below the anchor, or above it when
/// only the space above can hold it, cut to the space available.
pub open spec fn dropdown_area_spec(n: usize, max_visible: u16, anchor: Rect, screen: Rect) -> Rect {
    let dh = (visible_options(n, max_visible) + 2) as u16;
    let bottom = (anchor.y + anchor.height) as u16;
    let below = sat_sub16(screen.height, bottom);
    let above = sat_sub16(anchor.y, screen.y);
    let flip = below < dh && above >= dh;
    let y = if flip { sat_sub16(anchor.y, dh) } else { bottom };
    let avail = if flip { above } else { below };
    Rect::new_spec(anchor.x, y, anchor.width, if dh < avail { dh } else { avail })
}

/// How many dropdown rows fit: the options from `scroll` on, at most `h`.
pub open spec fn dropdown_row_count(n: int, scroll: int, h: int) -> int {
    if scroll < n {
        if n - scroll < h { n - scroll } else { h }
    } else {
        0
    }
}

/// Row `k` of the dropdown drawn inside `inner`.
pub open spec fn dropdown_row_ok(
    row: DropdownRow,
    st: SelectState,
    sty: SelectStyle,
    labels: Seq<String>,
    inner: Rect,
    k: int,
) -> bool {
    let i = st.scroll_offset + k;
    let prefix = if st.selected_index == Some(i as usize) {
        sty.selected_indicator@
    } else {
        sty.unselected_indicator@
    };
    &&& row.index == i
    &&& row.area == Rect::new_spec(inner.x, (inner.y + k) as u16, inner.width, 1)
    &&& row.style == if i == st.highlighted_index { sty.highlight_style } else { sty.option_style }
    &&& row.text@ == take_at_most(prefix + labels[i]@, inner.width as int)
}

impl<'a, T, F: Fn(&T) -> String> Select<'a, T, F> {
    /// A select over `options`, labelled by `render_option`, with the
    /// default style and placeholder.
    pub fn new(options: &'a [T], state: &'a SelectState, render_option: F) -> (s: Self)
        ensures
            s.options == options,
            s.state == state,
            s.label is None,
            s.render_option == render_option,
            s.placeholder@ == "Please select an option"@,
            select_style_default_fields(s.style),
            s.focus_id == (FocusId { value: 0 }),
    {
        Select {
            options,
            state,
            style: SelectStyle::default(),
            placeholder: "Please select an option",
            label: None,
            render_option,
            focus_id: FocusId::new(0),
        }
    }

    /// The same select with another labelling function.
    pub fn render_option<G: Fn(&T) -> String>(self, render_fn: G) -> (s: Select<'a, T, G>)
        ensures
            s.options == self.options,
            s.state == self.state,
            s.style == self.style,
            s.placeholder == self.placeholder,
            s.label == self.label,
            s.render_option == render_fn,
            s.focus_id == self.focus_id,
    {
        Select {
            options: self.options,
            state: self.state,
            style: self.style,
            placeholder: self.placeholder,
            label: self.label,
            render_option: render_fn,
            focus_id: self.focus_id,
        }
    }

    /// Sets the placeholder.
    pub fn placeholder(self, placeholder: &'a str) -> (s: Self)
        ensures
            s == (Select { placeholder, ..self }),
    {
        Select { placeholder, ..self }
    }

    /// Sets the label shown in the border.
    pub fn label(self, label: &'a str) -> (s: Self)
        ensures
            s == (Select { label: Some(label), ..self }),
    {
        Select { label: Some(label), ..self }
    }

    /// Sets the style.
    pub fn style(self, style: SelectStyle) -> (s: Self)
        ensures
            s == (Select { style, ..self }),
    {
        Select { style, ..self }
    }

    /// Sets the focus identifier.
    pub fn focus_id(self, id: FocusId) -> (s: Self)
        ensures
            s == (Select { focus_id: id, ..self }),
    {
        Select { focus_id: id, ..self }
    }

    /// The label of every option, in order.
    pub fn option_labels(&self) -> (r: Vec<String>)
        requires
            forall|i: int| 0 <= i < self.options@.len() ==> call_requires(self.render_option, (&self.options@[i],)),
        ensures
            r@.len() == self.options@.len(),
            forall|i: int| 0 <= i < r@.len() ==> call_ensures(self.render_option, (&self.options@[i],), #[trigger] r@[i]),
    {
        let mut r: Vec<String> = Vec::new();
        let mut i: usize = 0;
        while i < self.options.len()
            invariant
                i <= self.options@.len(),
                r@.len() == i,
                forall|j: int| 0 <= j < self.options@.len() ==> call_requires(self.render_option, (&self.options@[j],)),
                forall|j: int| 0 <= j < i ==> call_ensures(self.render_option, (&self.options@[j],), #[trigger] r@[j]),
            decreases self.options@.len() - i,
        {
            let l = (self.render_option)(&self.options[i]);
            r.push(l);
            i = i + 1;
        }
        r
    }

    /// The border color of the closed box: disabled, focused or not.
    pub fn border_color(&self) -> (c: Color)
        ensures
            c == if !self.state.enabled {
                self.style.disabled_border
            } else if self.state.focused {
                self.style.focused_border
            } else {
                self.style.unfocused_border
            },
    {
        if !self.state.enabled {
            self.style.disabled_border
        } else if self.state.focused {
            self.style.focused_border
        } else {
            self.style.unfocused_border
        }
    }

    /// The border title: the label with a space on each side.
    pub fn title(&self) -> (r: Option<String>)
        ensures
            match self.label {
                Some(l) => r matches Some(t) && t@ == " "@ + l@ + " "@,
                None => r is None,
            },
    {
        match self.label {
            Some(l) => {
                let a = concat(" ", l);
                Some(concat(a.as_str(), " "))
            },
            None => None,
        }
    }

    /// The two spans of the closed box, given the option labels: the
    /// selected option's label (or the placeholder) and the indicator.
    pub fn closed_spans(&self, labels: &[String]) -> (r: Vec<(String, Style)>)
        requires
            labels@.len() == self.options@.len(),
        ensures
            r@.len() == 2,
            match self.state.selected_index {
                Some(i) => if i < self.options@.len() {
                    r@[0].0@ == labels@[i as int]@ && r@[0].1 == fg_style(self.style.text_fg)
                } else {
                    r@[0].0@ == self.placeholder@ && r@[0].1 == fg_style(self.style.placeholder_fg)
                },
                None => r@[0].0@ == self.placeholder@ && r@[0].1 == fg_style(self.style.placeholder_fg),
            },
            r@[1].0@ == " "@ + self.style.dropdown_indicator@,
            r@[1].1 == fg_style(
                if self.state.focused { self.style.focused_border } else { self.style.unfocused_border },
            ),
    {
        let mut r: Vec<(String, Style)> = Vec::new();
        let shown = match self.state.selected_index {
            Some(i) => i < self.options.len(),
            None => false,
        };
        if shown {
            let i = self.state.selected_index.unwrap();
            r.push((labels[i].clone(), fg(self.style.text_fg)));
        } else {
            r.push((String::from_str(self.placeholder), fg(self.style.placeholder_fg)));
        }
        let c = if self.state.focused {
            self.style.focused_border
        } else {
            self.style.unfocused_border
        };
        r.push((concat(" ", self.style.dropdown_indicator), fg(c)));
        r
    }

    /// Where the open dropdown goes, for the closed box at `anchor` on
    /// `screen`; nothing when there are no options.
    pub fn dropdown_area(&self, anchor: Rect, screen: Rect) -> (r: Option<Rect>)
        requires
            anchor.fits(),
            visible_options(self.options@.len() as usize, self.style.max_visible_options) + 2 <= u16::MAX,
        ensures
            self.options@.len() == 0 ==> r is None,
            self.options@.len() > 0 ==> r == Some(
                dropdown_area_spec(self.options@.len() as usize, self.style.max_visible_options, anchor, screen),
            ),
    {
        if self.options.len() == 0 {
            return None;
        }
        let dh = calculate_dropdown_height(self.options.len(), self.style.max_visible_options);
        let bottom = anchor.y + anchor.height;
        let below = screen.height.saturating_sub(bottom);
        let above = anchor.y.saturating_sub(screen.y);
        let (y, flip) = if below >= dh {
            (bottom, false)
        } else if above >= dh {
            (anchor.y.saturating_sub(dh), true)
        } else {
            (bottom, false)
        };
        let avail = if flip { above } else { below };
        Some(Rect::new(anchor.x, y, anchor.width, if dh < avail { dh } else { avail }))
    }

    /// The rows of the open dropdown inside its border (`inner`), given the
    /// option labels: from the scroll offset on, one per line, each label
    /// behind its indicator and cut to the width.
    pub fn dropdown_rows(&self, inner: Rect, labels: &[String]) -> (r: Vec<DropdownRow>)
        requires
            labels@.len() == self.options@.len(),
            inner.fits(),
        ensures
            r@.len() == dropdown_row_count(self.options@.len() as int, self.state.scroll_offset as int, inner.height as int),
            forall|k: int| 0 <= k < r@.len() ==> dropdown_row_ok(#[trigger] r@[k], *self.state, self.style, labels@, inner, k),
    {
        let n = self.options.len();
        let scroll = self.state.scroll_offset as usize;
        let h = inner.height as usize;
        let mut r: Vec<DropdownRow> = Vec::new();
        let mut i: usize = scroll;
        while i < n && i - scroll < h
            invariant
                scroll == self.state.scroll_offset,
                h == inner.height,
                n == self.options@.len(),
                labels@.len() == n,
                inner.fits(),
                scroll <= i,
                i - scroll <= h,
                scroll <= n ==> i <= n,
                scroll > n ==> i == scroll,
                r@.len() == i - scroll,
                forall|k: int| 0 <= k < r@.len() ==> dropdown_row_ok(#[trigger] r@[k], *self.state, self.style, labels@, inner, k),
            decreases n - i,
        {
            let k = i - scroll;
            let y = inner.y + k as u16;
            let is_selected = match self.state.selected_index {
                Some(s) => s == i,
                None => false,
            };
            let prefix = if is_selected {
                self.style.selected_indicator
            } else {
                self.style.unselected_indicator
            };
            let style = if i == self.state.highlighted_index {
                self.style.highlight_style
            } else {
                self.style.option_style
            };
            let full = concat(prefix, labels[i].as_str());
            let text = take_chars(full.as_str(), inner.width as usize);
            r.push(DropdownRow { area: Rect::new(inner.x, y, inner.width, 1), text, style, index: i });
            i = i + 1;
        }
        r
    }
}

impl<'a, T, F: Fn(&T) -> String> Select<'a, T, F> {
    /// The open dropdown for the closed box at `anchor` on `screen`, given
    /// the option labels: its area (border included) and its rows inside
    /// the border. Nothing when there are no options.
    pub fn dropdown_layout(&self, anchor: Rect, screen: Rect, labels: &[String]) -> (r: Option<(Rect, Vec<DropdownRow>)>)
        requires
            anchor.fits(),
            visible_options(self.options@.len() as usize, self.style.max_visible_options) + 2 <= u16::MAX,
            labels@.len() == self.options@.len(),
        ensures
            self.options@.len() == 0 ==> r is None,
            self.options@.len() > 0 ==> (r matches Some((area, rows)) && {
                let inner = bordered_inner(area);
                &&& area == dropdown_area_spec(self.options@.len() as usize, self.style.max_visible_options, anchor, screen)
                &&& rows@.len() == dropdown_row_count(self.options@.len() as int, self.state.scroll_offset as int, inner.height as int)
                &&& forall|k: int| 0 <= k < rows@.len() ==> dropdown_row_ok(#[trigger] rows@[k], *self.state, self.style, labels@, inner, k)
            }),
    {
        match self.dropdown_area(anchor, screen) {
            Some(area) => {
                let inner = block_inner(area);
                let rows = self.dropdown_rows(inner, labels);
                Some((area, rows))
            },
            None => None,
        }
    }
}

/// The click regions of the dropdown rows: each selects its option.
pub fn dropdown_regions(rows: &[DropdownRow]) -> (r: Vec<ClickRegion<SelectAction>>)
    ensures
        r@.len() == rows@.len(),
        forall|k: int| 0 <= k < r@.len() ==> (#[trigger] r@[k]).area == rows@[k].area
            && r@[k].data == SelectAction::Select(rows@[k].index),
{
    let mut r: Vec<ClickRegion<SelectAction>> = Vec::new();
    let mut k: usize = 0;
    while k < rows.len()
        invariant
            k <= rows@.len(),
            r@.len() == k,
            forall|j: int| 0 <= j < k ==> (#[trigger] r@[j]).area == rows@[j].area
                && r@[j].data == SelectAction::Select(rows@[j].index),
        decreases rows@.len() - k,
    {
        r.push(ClickRegion::new(rows[k].area, SelectAction::Select(rows[k].index)));
        k = k + 1;
    }
    r
}

/// Number of dropdown rows that the keyboard handler keeps the highlight in.
pub const KEY_VIEWPORT: usize = 8;

/// Number of options that PageUp / PageDown move the highlight by.
pub const PAGE_STEP: usize = 5;

/// The key handled by `handle_select_key`, as a state change and result.
pub open spec fn select_key_spec(code: KeyCode, s: SelectState, t: SelectState, r: Option<SelectAction>) -> bool {
    if !s.enabled {
        r is None && t == s
    } else if s.is_open {
        match code {
            KeyCode::Esc => r == Some(SelectAction::Close) && t == SelectState { is_open: false, ..s },
            KeyCode::Enter | KeyCode::Char(' ') => r == Some(SelectAction::Select(s.highlighted_index))
                && t == SelectState {
                selected_index: if s.total_options > 0 {
                    Some(s.highlighted_index)
                } else {
                    s.selected_index
                },
                is_open: false,
                ..s
            },
            KeyCode::Up => r is None && highlight_moved(s, t, prev_highlight(s.highlighted_index)),
            KeyCode::Down => r is None && highlight_moved(
                s,
                t,
                next_highlight(s.highlighted_index, s.total_options),
            ),
            KeyCode::Home => r is None && t == SelectState { highlighted_index: 0, scroll_offset: 0, ..s },
            KeyCode::End => r is None && highlight_moved(
                s,
                t,
                if s.total_options > 0 { (s.total_options - 1) as usize } else { s.highlighted_index },
            ),
            KeyCode::PageUp => r is None && highlight_moved(
                s,
                t,
                retreat_highlight(s.highlighted_index, PAGE_STEP as nat),
            ),
            KeyCode::PageDown => r is None && highlight_moved(
                s,
                t,
                advance_highlight(s.highlighted_index, s.total_options, PAGE_STEP as nat),
            ),
            _ => r is None && t == s,
        }
    } else {
        match code {
            KeyCode::Enter | KeyCode::Char(' ') | KeyCode::Down => r == Some(SelectAction::Open) && t
                == opened(s),
            _ => r is None && t == s,
        }
    }
}

/// `t` is `s` with the highlight at `h` and the dropdown scrolled to show it.
pub open spec fn highlight_moved(s: SelectState, t: SelectState, h: usize) -> bool {
    t == SelectState {
        highlighted_index: h,
        scroll_offset: scroll_to_highlight(h, s.scroll_offset, KEY_VIEWPORT),
        ..s
    }
}

/// Keyboard handling. Closed: Enter, Space or Down opens. Open: Esc
/// closes, Enter or Space selects the highlighted option, Up / Down /
/// Home / End / PageUp / PageDown move the highlight (pages of 5), keeping
/// it within the first 8 rows shown. Nothing happens while disabled.
pub fn handle_select_key(key: &KeyEvent, state: &mut SelectState) -> (r: Option<SelectAction>)
    ensures
        select_key_spec(key.code, *old(state), *final(state), r),
{
    if !state.enabled {
        return None;
    }
    if state.is_open {
        match key.code {
            KeyCode::Esc => {
                state.close();
                Some(SelectAction::Close)
            },
            KeyCode::Enter | KeyCode::Char(' ') => {
                let idx = state.highlighted_index;
                state.select_highlighted();
                Some(SelectAction::Select(idx))
            },
            KeyCode::Up => {
                state.highlight_prev();
                state.ensure_visible(KEY_VIEWPORT);
                None
            },
            KeyCode::Down => {
                state.highlight_next();
                state.ensure_visible(KEY_VIEWPORT);
                None
            },
            KeyCode::Home => {
                state.highlight_first();
                None
            },
            KeyCode::End => {
                state.highlight_last();
                state.ensure_visible(KEY_VIEWPORT);
                None
            },
            KeyCode::PageUp => {
                let ghost s0 = *state;
                let mut k: usize = 0;
                while k < PAGE_STEP
                    invariant
                        k <= PAGE_STEP,
                        *state == (SelectState {
                            highlighted_index: retreat_highlight(s0.highlighted_index, k as nat),
                            ..s0
                        }),
                    decreases PAGE_STEP - k,
                {
                    state.highlight_prev();
                    k = k + 1;
                }
                state.ensure_visible(KEY_VIEWPORT);
                None
            },
            KeyCode::PageDown => {
                let ghost s0 = *state;
                let mut k: usize = 0;
                while k < PAGE_STEP
                    invariant
                        k <= PAGE_STEP,
                        *state == (SelectState {
                            highlighted_index: advance_highlight(
                                s0.highlighted_index,
                                s0.total_options,
                                k as nat,
                            ),
                            ..s0
                        }),
                    decreases PAGE_STEP - k,
                {
                    state.highlight_next();
                    k = k + 1;
                }
                state.ensure_visible(KEY_VIEWPORT);
                None
            },
            _ => None,
        }
    } else {
        match key.code {
            KeyCode::Enter | KeyCode::Char(' ') | KeyCode::Down => {
                state.open();
                Some(SelectAction::Open)
            },
            _ => None,
        }
    }
}

/// Whether region `i` is the first region containing the cell that selects
/// an option.
pub open spec fn first_option_hit(regions: Seq<ClickRegion<SelectAction>>, col: u16, row: u16, i: int) -> bool {
    &&& 0 <= i < regions.len()
    &&& rect_contains(regions[i].area, col, row)
    &&& regions[i].data is Select
    &&& forall|j: int| 0 <= j < i && rect_contains(#[trigger] regions[j].area, col, row)
        ==> !(regions[j].data is Select)
}

/// The mouse event handled by `handle_select_mouse`, as a state change and
/// result.
pub open spec fn select_mouse_spec(
    mouse: MouseEvent,
    s: SelectState,
    area: Rect,
    regions: Seq<ClickRegion<SelectAction>>,
    t: SelectState,
    r: Option<SelectAction>,
) -> bool {
    if !s.enabled || mouse.kind != MouseEventKind::Down(MouseButton::Left) {
        r is None && t == s
    } else if s.is_open {
        if exists|i: int| first_option_hit(regions, mouse.column, mouse.row, i) {
            let i = choose|i: int| first_option_hit(regions, mouse.column, mouse.row, i);
            let idx = regions[i].data->Select_0;
            r == Some(SelectAction::Select(idx)) && t == selected_at(s, idx)
        } else {
            r == Some(SelectAction::Close) && t == SelectState { is_open: false, ..s }
        }
    } else if rect_contains(area, mouse.column, mouse.row) {
        r == Some(SelectAction::Open) && t == opened(s)
    } else {
        r is None && t == s
    }
}

proof fn lemma_first_option_hit_unique(s: Seq<ClickRegion<SelectAction>>, col: u16, row: u16, a: int, b: int)
    requires
        first_option_hit(s, col, row, a),
        first_option_hit(s, col, row, b),
    ensures
        a == b,
{
    if a < b {
        assert(rect_contains(s[a].area, col, row));
    } else if b < a {
        assert(rect_contains(s[b].area, col, row));
    }
}

/// Mouse handling for a left click. Open: a click on an option selects it
/// (the first option region containing the cell wins); any other click
/// closes. Closed: a click on the box opens it. Nothing happens while
/// disabled.
pub fn handle_select_mouse(
    mouse: &MouseEvent,
    state: &mut SelectState,
    select_area: Rect,
    dropdown_regions: &[ClickRegion<SelectAction>],
) -> (r: Option<SelectAction>)
    requires
        select_area.fits(),
        regions_fit(dropdown_regions@),
    ensures
        select_mouse_spec(*mouse, *old(state), select_area, dropdown_regions@, *final(state), r),
{
    if !state.enabled {
        return None;
    }
    if let MouseEventKind::Down(MouseButton::Left) = mouse.kind {
        let col = mouse.column;
        let row = mouse.row;
        if state.is_open {
            let mut i: usize = 0;
            while i < dropdown_regions.len()
                invariant
                    i <= dropdown_regions.len(),
                    regions_fit(dropdown_regions@),
                    *state == *old(state),
                    state.enabled,
                    state.is_open,
                    mouse.kind == MouseEventKind::Down(MouseButton::Left),
                    col == mouse.column,
                    row == mouse.row,
                    forall|j: int| 0 <= j < i && rect_contains(#[trigger] dropdown_regions@[j].area, col, row)
                        ==> !(dropdown_regions@[j].data is Select),
                decreases dropdown_regions.len() - i,
            {
                if dropdown_regions[i].contains(col, row) {
                    if let SelectAction::Select(idx) = dropdown_regions[i].data {
                        proof {
                            assert(first_option_hit(dropdown_regions@, col, row, i as int));
                            let c = choose|k: int| first_option_hit(dropdown_regions@, col, row, k);
                            lemma_first_option_hit_unique(dropdown_regions@, col, row, i as int, c);
                        }
                        state.select(idx);
                        return Some(SelectAction::Select(idx));
                    }
                }
                i = i + 1;
            }
            proof {
                if exists|k: int| first_option_hit(dropdown_regions@, col, row, k) {
                    let k = choose|k: int| first_option_hit(dropdown_regions@, col, row, k);
                    assert(rect_contains(dropdown_regions@[k].area, col, row));
                }
            }
            state.close();
            Some(SelectAction::Close)
        } else {
            if col >= select_area.x && col < select_area.x + select_area.width && row >= select_area.y
                && row < select_area.y + select_area.height {
                state.open();
                return Some(SelectAction::Open);
            }
            None
        }
    } else {
        None
    }
}

/// The number of dropdown rows shown for `option_count` options: at most
/// `max_visible`. The count is taken modulo 2^16.
pub open spec fn visible_options(option_count: usize, max_visible: u16) -> u16 {
    let n = option_count as u16;
    if n < max_visible { n } else { max_visible }
}

/// The height of the dropdown: its rows plus two border lines.
pub fn calculate_dropdown_height(option_count: usize, max_visible: u16) -> (h: u16)
    requires
        visible_options(option_count, max_visible) + 2 <= u16::MAX,
    ensures
        h == visible_options(option_count, max_visible) + 2,
{
    let n = option_count as u16;
    let visible = if n < max_visible { n } else { max_visible };
    visible + 2
}

/// Opening an enabled select shows it open with the chosen option
/// highlighted, keeping the choice, whatever was highlighted before; so
/// moving the highlight, closing without choosing and opening again comes
/// back to the chosen option.
pub proof fn open_highlights_selection(s: SelectState, moved: usize)
    requires
        s.enabled,
    ensures
        opened(s).is_open,
        opened(s).selected_index == s.selected_index,
        s.selected_index matches Some(i) ==> opened(s).highlighted_index == i,
        s.selected_index is Some ==> opened(SelectState { highlighted_index: moved, is_open: false, ..opened(s) })
            == opened(s),
{
}

/// Highlight navigation stays on an option and undoes itself: from an
/// option below the last, moving down then up returns to it; from an
/// option past the first, moving up then down returns to it.
pub proof fn highlight_moves_undo(h: usize, total: usize)
    requires
        h < total,
    ensures
        next_highlight(h, total) < total,
        prev_highlight(h) < total,
        h + 1 < total ==> prev_highlight(next_highlight(h, total)) == h,
        h > 0 ==> next_highlight(prev_highlight(h), total) == h,
{
}

} // verus!
