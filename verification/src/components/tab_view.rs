//! Tab view: a tab bar on any side of a content area, with keyboard and
//! mouse selection, and the layout of the bar.
use vstd::prelude::*;
use crate::click::{first_hit, regions_fit, ClickRegionRegistry};
use crate::event::{KeyCode, KeyEvent, MouseButton, MouseEvent, MouseEventKind};
use crate::focus::{FocusId, Focusable};
use crate::geometry::{block_inner, bordered_inner, split_of, split_two, Constraint, Direction, Rect};
use crate::style::{fg, fg_bg, fg_style, fg_bg_style, with_modifier, Color, Modifier, Style};
use crate::text::{center, center_str, chars_of, concat, pad_right, pad_right_str, str_width, str_width_of, string_from_chars, string_from_str, take_at_most};

verus! {

/// Where the tab bar is, relative to the content.
#[derive(Debug, Clone, Copy, PartialEq, Eq, Structural, Default)]
pub enum TabPosition {
    #[default]
    Top,
    Bottom,
    Left,
    Right,
}

impl TabPosition {
    /// Whether the tabs run horizontally (top or bottom).
    pub fn is_horizontal(&self) -> (b: bool)
        ensures
            b == (*self == TabPosition::Top || *self == TabPosition::Bottom),
    {
        match self {
            TabPosition::Top | TabPosition::Bottom => true,
            _ => false,
        }
    }

    /// Whether the tabs run vertically (left or right).
    pub fn is_vertical(&self) -> (b: bool)
        ensures
            b == (*self == TabPosition::Left || *self == TabPosition::Right),
    {
        match self {
            TabPosition::Left | TabPosition::Right => true,
            _ => false,
        }
    }
}

/// One tab: a label, an optional icon and badge, enabled or not.
#[derive(Debug, Clone, Copy)]
pub struct Tab<'a> {
    pub label: &'a str,
    pub icon: Option<&'a str>,
    pub badge: Option<&'a str>,
    pub enabled: bool,
}

/// The width `display_width` gives a tab: label, icon and a space, badge
/// with a space and padding, and a cell of padding on each side.
pub open spec fn tab_width_spec(t: Tab) -> int {
    str_width_of(t.label@) + match t.icon {
        Some(i) => str_width_of(i@) + 1,
        None => 0,
    } + match t.badge {
        Some(b) => str_width_of(b@) + 2,
        None => 0,
    } + 2
}

impl<'a> Tab<'a> {
    /// An enabled tab with a label only.
    pub fn new(label: &'a str) -> (t: Self)
        ensures
            t == (Tab { label, icon: None, badge: None, enabled: true }),
    {
        Tab { label, icon: None, badge: None, enabled: true }
    }

    /// Sets the icon.
    pub fn icon(self, icon: &'a str) -> (t: Self)
        ensures
            t == (Tab { icon: Some(icon), ..self }),
    {
        Tab { icon: Some(icon), ..self }
    }

    /// Sets the badge.
    pub fn badge(self, badge: &'a str) -> (t: Self)
        ensures
            t == (Tab { badge: Some(badge), ..self }),
    {
        Tab { badge: Some(badge), ..self }
    }

    /// Enables or disables the tab.
    pub fn enabled(self, enabled: bool) -> (t: Self)
        ensures
            t == (Tab { enabled, ..self }),
    {
        Tab { enabled, ..self }
    }

    /// The display width of the tab (see `tab_width_spec`).
    pub fn display_width(&self) -> (w: usize)
        requires
            tab_width_spec(*self) <= usize::MAX,
        ensures
            w == tab_width_spec(*self),
    {
        let mut width = str_width(self.label);
        match self.icon {
            Some(icon) => {
                width = width + str_width(icon) + 1;
            },
            None => {},
        }
        match self.badge {
            Some(badge) => {
                width = width + str_width(badge) + 2;
            },
            None => {},
        }
        width + 2
    }

    /// The display width of the tab (see `tab_width_spec`), or `None` where
    /// it does not fit in `usize`.
    pub fn checked_display_width(&self) -> (w: Option<usize>)
        ensures
            w matches Some(v) ==> v == tab_width_spec(*self),
            w is None <==> tab_width_spec(*self) > usize::MAX,
    {
        let mut width = str_width(self.label);
        match self.icon {
            Some(icon) => {
                let iw = str_width(icon);
                if width > usize::MAX - 1 || iw > usize::MAX - 1 - width {
                    return None;
                }
                width = width + iw + 1;
            },
            None => {},
        }
        match self.badge {
            Some(badge) => {
                let bw = str_width(badge);
                if width > usize::MAX - 2 || bw > usize::MAX - 2 - width {
                    return None;
                }
                width = width + bw + 2;
            },
            None => {},
        }
        if width > usize::MAX - 2 {
            return None;
        }
        Some(width + 2)
    }
}

/// State of a tab view.
#[derive(Debug, Clone, Copy)]
pub struct TabViewState {
    pub selected_index: usize,
    pub total_tabs: usize,
    /// The first tab shown when they overflow.
    pub scroll_offset: usize,
    /// Whether the tab bar, rather than the content, has the keys.
    pub tab_bar_focused: bool,
    pub focus_id: FocusId,
    pub focused: bool,
}

impl TabViewState {
    /// The first tab selected, the tab bar holding the keys, unfocused.
    pub fn new(total_tabs: usize) -> (s: Self)
        ensures
            s == (TabViewState {
                selected_index: 0,
                total_tabs,
                scroll_offset: 0,
                tab_bar_focused: true,
                focus_id: FocusId { value: 0 },
                focused: false,
            }),
    {
        TabViewState {
            selected_index: 0,
            total_tabs,
            scroll_offset: 0,
            tab_bar_focused: true,
            focus_id: FocusId::new(0),
            focused: false,
        }
    }

    /// As `new`, with the given focus identifier.
    pub fn with_focus_id(total_tabs: usize, focus_id: FocusId) -> (s: Self)
        ensures
            s == (TabViewState {
                selected_index: 0,
                total_tabs,
                scroll_offset: 0,
                tab_bar_focused: true,
                focus_id,
                focused: false,
            }),
    {
        TabViewState { selected_index: 0, total_tabs, scroll_offset: 0, tab_bar_focused: true, focus_id, focused: false }
    }

    /// Selects the next tab, stopping at the last.
    pub fn select_next(&mut self)
        ensures
            *final(self) == (TabViewState {
                selected_index: if old(self).selected_index + 1 < old(self).total_tabs {
                    (old(self).selected_index + 1) as usize
                } else {
                    old(self).selected_index
                },
                ..*old(self)
            }),
    {
        if self.total_tabs > 0 && self.selected_index < self.total_tabs - 1 {
            self.selected_index += 1;
        }
    }

    /// Selects the previous tab, stopping at the first.
    pub fn select_prev(&mut self)
        ensures
            *final(self) == (TabViewState {
                selected_index: if old(self).selected_index > 0 { (old(self).selected_index - 1) as usize } else { 0 },
                ..*old(self)
            }),
    {
        if self.selected_index > 0 {
            self.selected_index -= 1;
        }
    }

    /// Selects the tab at `index`, when it exists.
    pub fn select(&mut self, index: usize)
        ensures
            *final(self) == (TabViewState {
                selected_index: if index < old(self).total_tabs { index } else { old(self).selected_index },
                ..*old(self)
            }),
    {
        if index < self.total_tabs {
            self.selected_index = index;
        }
    }

    /// Selects the first tab.
    pub fn select_first(&mut self)
        ensures
            *final(self) == (TabViewState { selected_index: 0, ..*old(self) }),
    {
        self.selected_index = 0;
    }

    /// Selects the last tab, when there is one.
    pub fn select_last(&mut self)
        ensures
            *final(self) == (TabViewState {
                selected_index: if old(self).total_tabs > 0 {
                    (old(self).total_tabs - 1) as usize
                } else {
                    old(self).selected_index
                },
                ..*old(self)
            }),
    {
        if self.total_tabs > 0 {
            self.selected_index = self.total_tabs - 1;
        }
    }

    /// Passes the keys between the tab bar and the content.
    pub fn toggle_focus(&mut self)
        ensures
            *final(self) == (TabViewState { tab_bar_focused: !old(self).tab_bar_focused, ..*old(self) }),
    {
        self.tab_bar_focused = !self.tab_bar_focused;
    }

    /// Scrolls the tabs so that the selected one is among the
    /// `visible_count` shown.
    pub fn ensure_visible(&mut self, visible_count: usize)
        ensures
            *final(self) == (TabViewState {
                scroll_offset: if visible_count == 0 {
                    old(self).scroll_offset
                } else if old(self).selected_index < old(self).scroll_offset {
                    old(self).selected_index
                } else if old(self).selected_index >= old(self).scroll_offset + visible_count {
                    (old(self).selected_index - visible_count + 1) as usize
                } else {
                    old(self).scroll_offset
                },
                ..*old(self)
            }),
    {
        if visible_count == 0 {
            return;
        }
        if self.selected_index < self.scroll_offset {
            self.scroll_offset = self.selected_index;
        } else if self.selected_index - self.scroll_offset >= visible_count {
            self.scroll_offset = self.selected_index - visible_count + 1;
        }
    }

    /// Changes the number of tabs, pulling the selection back onto the
    /// last one when it falls off the end.
    pub fn set_total(&mut self, total: usize)
        ensures
            *final(self) == (TabViewState {
                total_tabs: total,
                selected_index: if old(self).selected_index >= total && total > 0 {
                    (total - 1) as usize
                } else {
                    old(self).selected_index
                },
                ..*old(self)
            }),
    {
        self.total_tabs = total;
        if self.selected_index >= total && total > 0 {
            self.selected_index = total - 1;
        }
    }
}

impl Default for TabViewState {
    fn default() -> (s: Self)
        ensures
            s == (TabViewState {
                selected_index: 0,
                total_tabs: 0,
                scroll_offset: 0,
                tab_bar_focused: true,
                focus_id: FocusId { value: 0 },
                focused: false,
            }),
    {
        Self::new(0)
    }
}

impl Focusable for TabViewState {
    fn focus_id(&self) -> (r: FocusId)
        ensures
            r == self.focus_id,
    {
        self.focus_id
    }

    fn is_focused(&self) -> (b: bool)
        ensures
            b == self.focused,
    {
        self.focused
    }

    fn set_focused(&mut self, focused: bool)
        ensures
            *final(self) == (TabViewState { focused, ..*old(self) }),
    {
        self.focused = focused;
    }
}

/// Where the bar goes, styles, divider, sizes and indicators of a tab view.
#[derive(Debug, Clone, Copy)]
pub struct TabViewStyle {
    pub position: TabPosition,
    pub selected_style: Style,
    pub normal_style: Style,
    /// Style of the selected tab while the bar holds the keys of a focused
    /// view.
    pub focused_style: Style,
    pub disabled_style: Style,
    pub badge_style: Style,
    pub content_border_style: Style,
    /// Put between horizontal tabs.
    pub divider: &'static str,
    /// Width of a vertical bar (16 when unset).
    pub tab_width: Option<u16>,
    /// Height of a horizontal bar.
    pub tab_height: u16,
    pub bordered_content: bool,
    /// Mark the selected tab with the indicator.
    pub show_indicator: bool,
    pub indicator: &'static str,
    pub scroll_left: &'static str,
    pub scroll_right: &'static str,
    pub scroll_up: &'static str,
    pub scroll_down: &'static str,
}

/// Every field of `s` but the position, the divider, the tab width, the
/// content border flag and the indicator flag has its default value.
pub open spec fn tab_style_defaults(s: TabViewStyle) -> bool {
    &&& s.selected_style == with_modifier(fg_style(Color::Yellow), Modifier { bits: 1 })
    &&& s.normal_style == fg_style(Color::White)
    &&& s.focused_style == with_modifier(fg_bg_style(Color::Yellow, Color::DarkGray), Modifier { bits: 1 })
    &&& s.disabled_style == fg_style(Color::DarkGray)
    &&& s.badge_style == with_modifier(fg_bg_style(Color::Black, Color::Red), Modifier { bits: 1 })
    &&& s.content_border_style == fg_style(Color::Cyan)
    &&& s.tab_height == 1
    &&& s.indicator@ == "▸"@
    &&& s.scroll_left@ == "◀"@
    &&& s.scroll_right@ == "▶"@
    &&& s.scroll_up@ == "▲"@
    &&& s.scroll_down@ == "▼"@
}

impl Default for TabViewStyle {
    fn default() -> (s: Self)
        ensures
            tab_style_defaults(s),
            s.position == TabPosition::Top,
            s.divider@ == " │ "@,
            s.tab_width is None,
            s.bordered_content,
            s.show_indicator,
    {
        TabViewStyle {
            position: TabPosition::Top,
            selected_style: fg(Color::Yellow).add_modifier(Modifier::bold()),
            normal_style: fg(Color::White),
            focused_style: fg_bg(Color::Yellow, Color::DarkGray).add_modifier(Modifier::bold()),
            disabled_style: fg(Color::DarkGray),
            badge_style: fg_bg(Color::Black, Color::Red).add_modifier(Modifier::bold()),
            content_border_style: fg(Color::Cyan),
            divider: " │ ",
            tab_width: None,
            tab_height: 1,
            bordered_content: true,
            show_indicator: true,
            indicator: "▸",
            scroll_left: "◀",
            scroll_right: "▶",
            scroll_up: "▲",
            scroll_down: "▼",
        }
    }
}

impl TabViewStyle {
    /// The default style: tabs on top.
    pub fn top() -> (s: Self)
        ensures
            tab_style_defaults(s),
            s.position == TabPosition::Top,
            s.divider@ == " │ "@,
            s.tab_width is None,
            s.bordered_content,
            s.show_indicator,
    {
        Self::default()
    }

    /// Tabs below the content.
    pub fn bottom() -> (s: Self)
        ensures
            tab_style_defaults(s),
            s.position == TabPosition::Bottom,
            s.divider@ == " │ "@,
            s.tab_width is None,
            s.bordered_content,
            s.show_indicator,
    {
        TabViewStyle { position: TabPosition::Bottom, ..Self::default() }
    }

    /// Tabs on the left, 16 cells wide, no divider.
    pub fn left() -> (s: Self)
        ensures
            tab_style_defaults(s),
            s.position == TabPosition::Left,
            s.divider@ == ""@,
            s.tab_width == Some(16u16),
            s.bordered_content,
            s.show_indicator,
    {
        TabViewStyle { position: TabPosition::Left, tab_width: Some(16), divider: "", ..Self::default() }
    }

    /// Tabs on the right, 16 cells wide, no divider.
    pub fn right() -> (s: Self)
        ensures
            tab_style_defaults(s),
            s.position == TabPosition::Right,
            s.divider@ == ""@,
            s.tab_width == Some(16u16),
            s.bordered_content,
            s.show_indicator,
    {
        TabViewStyle { position: TabPosition::Right, tab_width: Some(16), divider: "", ..Self::default() }
    }

    /// No content border, no indicator, two spaces between tabs.
    pub fn minimal() -> (s: Self)
        ensures
            tab_style_defaults(s),
            s.position == TabPosition::Top,
            s.divider@ == "  "@,
            s.tab_width is None,
            !s.bordered_content,
            !s.show_indicator,
    {
        TabViewStyle { bordered_content: false, show_indicator: false, divider: "  ", ..Self::default() }
    }

    /// Sets the position of the bar.
    pub fn position(self, position: TabPosition) -> (s: Self)
        ensures
            s == (TabViewStyle { position, ..self }),
    {
        TabViewStyle { position, ..self }
    }

    /// Sets the width of a vertical bar.
    pub fn tab_width(self, width: u16) -> (s: Self)
        ensures
            s == (TabViewStyle { tab_width: Some(width), ..self }),
    {
        TabViewStyle { tab_width: Some(width), ..self }
    }

    /// Sets the height of a horizontal bar.
    pub fn tab_height(self, height: u16) -> (s: Self)
        ensures
            s == (TabViewStyle { tab_height: height, ..self }),
    {
        TabViewStyle { tab_height: height, ..self }
    }

    /// Shows or hides the content border.
    pub fn bordered_content(self, bordered: bool) -> (s: Self)
        ensures
            s == (TabViewStyle { bordered_content: bordered, ..self }),
    {
        TabViewStyle { bordered_content: bordered, ..self }
    }

    /// Sets the style of the selected tab.
    pub fn selected_style(self, style: Style) -> (s: Self)
        ensures
            s == (TabViewStyle { selected_style: style, ..self }),
    {
        TabViewStyle { selected_style: style, ..self }
    }

    /// Sets the style of the other tabs.
    pub fn normal_style(self, style: Style) -> (s: Self)
        ensures
            s == (TabViewStyle { normal_style: style, ..self }),
    {
        TabViewStyle { normal_style: style, ..self }
    }

    /// Sets the divider.
    pub fn divider(self, divider: &'static str) -> (s: Self)
        ensures
            s == (TabViewStyle { divider, ..self }),
    {
        TabViewStyle { divider, ..self }
    }
}

/// What a click on the tab bar asks for.
#[derive(Debug, Clone, Copy, PartialEq, Eq, Structural)]
pub enum TabViewAction {
    /// The tab at this index.
    TabClick(usize),
    /// Scroll to earlier tabs.
    ScrollPrev,
    /// Scroll to later tabs.
    ScrollNext,
}

/// The digit key `c` from 1 to 9, as a tab index from 0.
pub open spec fn digit_tab(c: char) -> Option<usize> {
    if '1' <= c && c <= '9' { Some((c as u32 - '1' as u32) as usize) } else { None }
}

/// The key handled by `handle_tab_view_key`, as a state change and result.
pub open spec fn tab_key_spec(code: KeyCode, position: TabPosition, s: TabViewState, t: TabViewState, r: bool) -> bool {
    let horizontal = position == TabPosition::Top || position == TabPosition::Bottom;
    let prev = TabViewState {
        selected_index: if s.selected_index > 0 { (s.selected_index - 1) as usize } else { 0 },
        ..s
    };
    let next = TabViewState {
        selected_index: if s.selected_index + 1 < s.total_tabs { (s.selected_index + 1) as usize } else { s.selected_index },
        ..s
    };
    if s.tab_bar_focused {
        match code {
            KeyCode::Left if horizontal => r && t == prev,
            KeyCode::Right if horizontal => r && t == next,
            KeyCode::Up if !horizontal => r && t == prev,
            KeyCode::Down if !horizontal => r && t == next,
            KeyCode::Home => r && t == TabViewState { selected_index: 0, ..s },
            KeyCode::End => r && t == TabViewState {
                selected_index: if s.total_tabs > 0 { (s.total_tabs - 1) as usize } else { s.selected_index },
                ..s
            },
            KeyCode::Char(c) if digit_tab(c) is Some => r && t == TabViewState {
                selected_index: if digit_tab(c).unwrap() < s.total_tabs { digit_tab(c).unwrap() } else { s.selected_index },
                ..s
            },
            KeyCode::Enter => r && t == TabViewState { tab_bar_focused: false, ..s },
            _ => !r && t == s,
        }
    } else {
        match code {
            KeyCode::Esc => r && t == TabViewState { tab_bar_focused: true, ..s },
            _ => !r && t == s,
        }
    }
}

/// Keyboard handling. With the bar holding the keys: Left/Right (Up/Down
/// for vertical bars) move the selection, Home/End select the first and
/// last tab, digits 1 to 9 select that tab, Enter passes the keys to the
/// content. With the content holding them, Esc passes them back. Returns
/// whether the key was handled.
pub fn handle_tab_view_key(state: &mut TabViewState, key: &KeyEvent, position: TabPosition) -> (r: bool)
    ensures
        tab_key_spec(key.code, position, *old(state), *final(state), r),
{
    if state.tab_bar_focused {
        match key.code {
            KeyCode::Left if position.is_horizontal() => {
                state.select_prev();
                true
            },
            KeyCode::Right if position.is_horizontal() => {
                state.select_next();
                true
            },
            KeyCode::Up if position.is_vertical() => {
                state.select_prev();
                true
            },
            KeyCode::Down if position.is_vertical() => {
                state.select_next();
                true
            },
            KeyCode::Home => {
                state.select_first();
                true
            },
            KeyCode::End => {
                state.select_last();
                true
            },
            KeyCode::Char(c) if '1' <= c && c <= '9' => {
                let idx = (c as u32 - '1' as u32) as usize;
                if idx < state.total_tabs {
                    state.select(idx);
                }
                true
            },
            KeyCode::Enter => {
                state.toggle_focus();
                true
            },
            _ => false,
        }
    } else {
        match key.code {
            KeyCode::Esc => {
                state.toggle_focus();
                true
            },
            _ => false,
        }
    }
}

/// Mouse handling for a left click on a registered region: a tab is
/// selected (and the bar gets the keys), the scroll arrows move the first
/// tab shown. Returns the action of the region clicked.
pub fn handle_tab_view_mouse(
    state: &mut TabViewState,
    registry: &ClickRegionRegistry<TabViewAction>,
    mouse: &MouseEvent,
) -> (r: Option<TabViewAction>)
    requires
        regions_fit(registry.regions_view()),
        old(state).scroll_offset < usize::MAX,
    ensures
        mouse.kind != MouseEventKind::Down(MouseButton::Left) ==> r is None && *final(state) == *old(state),
        mouse.kind == MouseEventKind::Down(MouseButton::Left) ==> {
            &&& first_hit(registry.regions_view(), mouse.column, mouse.row, None) ==> r is None && *final(state) == *old(state)
            &&& forall|i: usize| #[trigger] first_hit(registry.regions_view(), mouse.column, mouse.row, Some(i)) ==> {
                let a = registry.regions_view()[i as int].data;
                &&& r == Some(a)
                &&& match a {
                    TabViewAction::TabClick(idx) => *final(state) == TabViewState {
                        selected_index: if idx < old(state).total_tabs { idx } else { old(state).selected_index },
                        tab_bar_focused: true,
                        ..*old(state)
                    },
                    TabViewAction::ScrollPrev => *final(state) == TabViewState {
                        scroll_offset: if old(state).scroll_offset > 0 { (old(state).scroll_offset - 1) as usize } else { 0 },
                        ..*old(state)
                    },
                    TabViewAction::ScrollNext => *final(state) == TabViewState {
                        scroll_offset: (old(state).scroll_offset + 1) as usize,
                        ..*old(state)
                    },
                }
            }
        },
{
    if let MouseEventKind::Down(MouseButton::Left) = mouse.kind {
        match registry.handle_click(mouse.column, mouse.row) {
            Some(action) => {
                let a = *action;
                proof {
                    let i = choose|i: usize| first_hit(registry.regions_view(), mouse.column, mouse.row, Some(i))
                        && *action == registry.regions_view()[i as int].data;
                    assert forall|j: usize| #[trigger] first_hit(registry.regions_view(), mouse.column, mouse.row, Some(j)) implies j == i by {
                        if j < i {
                            assert(crate::click::rect_contains(registry.regions_view()[j as int].area, mouse.column, mouse.row));
                        } else if i < j {
                            assert(crate::click::rect_contains(registry.regions_view()[i as int].area, mouse.column, mouse.row));
                        }
                    }
                }
                match a {
                    TabViewAction::TabClick(idx) => {
                        state.select(idx);
                        state.tab_bar_focused = true;
                    },
                    TabViewAction::ScrollPrev => {
                        if state.scroll_offset > 0 {
                            state.scroll_offset -= 1;
                        }
                    },
                    TabViewAction::ScrollNext => {
                        state.scroll_offset += 1;
                    },
                }
                return Some(a);
            },
            None => {
                return None;
            },
        }
    }
    None
}


/// The tab view widget: tabs, state and style. The content is drawn by the
/// caller in `content_area`.
pub struct TabView<'a> {
    pub tabs: &'a [Tab<'a>],
    pub state: &'a TabViewState,
    pub style: TabViewStyle,
}

/// One piece of text drawn by the tab bar, at a cell.
#[derive(Debug, Clone)]
pub struct TabCell {
    pub x: u16,
    pub y: u16,
    pub text: String,
    pub style: Style,
}

/// A piece of text at a cell, as values.
pub type CellV = (int, int, Seq<char>, Style);

/// The cell holds these values.
pub open spec fn cell_is(c: TabCell, v: CellV) -> bool {
    c.x == v.0 && c.y == v.1 && c.text@ == v.2 && c.style == v.3
}

/// The cells hold these values, in order.
pub open spec fn cells_are(c: Seq<TabCell>, v: Seq<CellV>) -> bool {
    c.len() == v.len() && forall|k: int| 0 <= k < c.len() ==> cell_is(#[trigger] c[k], v[k])
}

/// The style of tab `idx`: disabled, selected with the keys in a focused
/// view, selected, or normal.
pub open spec fn tab_style_spec(st: TabViewState, sty: TabViewStyle, idx: int, enabled: bool) -> Style {
    if !enabled {
        sty.disabled_style
    } else if idx == st.selected_index && st.focused && st.tab_bar_focused {
        sty.focused_style
    } else if idx == st.selected_index {
        sty.selected_style
    } else {
        sty.normal_style
    }
}

/// The width a horizontal tab counts for when fitting tabs: its display
/// width and the divider's, each taken as `u16`.
pub open spec fn tab_term(t: Tab, sty: TabViewStyle) -> int {
    ((tab_width_spec(t) as usize) as u16) + ((str_width_of(sty.divider@)) as u16)
}

/// The total width of the first `k` tabs.
pub open spec fn terms_upto(tabs: Seq<Tab>, sty: TabViewStyle, k: int) -> int
    decreases k,
{
    if k <= 0 { 0 } else { terms_upto(tabs, sty, k - 1) + tab_term(tabs[k - 1], sty) }
}

/// How many tabs from `i` on fit in `avail` columns after `width` are
/// used.
pub open spec fn fit_from(tabs: Seq<Tab>, sty: TabViewStyle, i: int, width: int, avail: int) -> int
    decreases tabs.len() - i,
{
    if i < 0 || i >= tabs.len() {
        0
    } else if width + tab_term(tabs[i], sty) > avail {
        0
    } else {
        1 + fit_from(tabs, sty, i + 1, width + tab_term(tabs[i], sty), avail)
    }
}

/// Fitting tabs from `i` on adds widths within `u16`.
pub open spec fn fit_fits(tabs: Seq<Tab>, sty: TabViewStyle, i: int, width: int, avail: int) -> bool
    decreases tabs.len() - i,
{
    if i < 0 || i >= tabs.len() {
        true
    } else {
        &&& width + tab_term(tabs[i], sty) <= u16::MAX
        &&& (width + tab_term(tabs[i], sty) <= avail ==> fit_fits(tabs, sty, i + 1, width + tab_term(tabs[i], sty), avail))
    }
}

/// How many horizontal tabs are shown in `avail` columns: those that fit
/// from the scroll offset on, at least one.
pub open spec fn visible_h(tabs: Seq<Tab>, sty: TabViewStyle, scroll: usize, avail: int) -> int {
    let n = fit_from(tabs, sty, scroll as int, 0, avail);
    if n >= 1 { n } else { 1 }
}

/// The text of a horizontal tab: icon and label, padded by a space on each
/// side, or after the indicator when selected and the indicator is on.
pub open spec fn htab_text(st: TabViewState, sty: TabViewStyle, t: Tab, idx: int) -> Seq<char> {
    let text = match t.icon {
        Some(i) => i@ + " "@ + t.label@,
        None => t.label@,
    };
    if st.selected_index == idx && sty.show_indicator {
        sty.indicator@ + " "@ + text + " "@
    } else {
        " "@ + text + " "@
    }
}

/// Tab `idx` of a horizontal bar drawn from column `x` of row `y`: its
/// cells, its click region, and the column after it. The divider follows
/// when `divide`.
pub open spec fn htab_step(st: TabViewState, sty: TabViewStyle, t: Tab, idx: int, x: int, y: int, divide: bool)
    -> (Seq<CellV>, Seq<(Rect, TabViewAction)>, int)
{
    let txt = htab_text(st, sty, t, idx);
    let x1 = x + (str_width_of(txt) as u16);
    let c1 = seq![(x, y, txt, tab_style_spec(st, sty, idx, t.enabled))];
    let (c2, x2) = match t.badge {
        Some(b) => (seq![(x1, y, " "@ + b@ + " "@, sty.badge_style)], x1 + (str_width_of(" "@ + b@ + " "@) as u16)),
        None => (Seq::<CellV>::empty(), x1),
    };
    let regs = if x2 - x > 0 {
        seq![(Rect::new_spec(x as u16, y as u16, (x2 - x) as u16, 1), TabViewAction::TabClick(idx as usize))]
    } else {
        Seq::empty()
    };
    let (c3, x3) = if divide {
        (seq![(x2, y, sty.divider@, fg_style(Color::DarkGray))], x2 + (str_width_of(sty.divider@) as u16))
    } else {
        (Seq::<CellV>::empty(), x2)
    };
    (c1 + c2 + c3, regs, x3)
}

/// The tabs `idx` to `stop` of a horizontal bar drawn from column `x`.
pub open spec fn htabs(st: TabViewState, sty: TabViewStyle, tabs: Seq<Tab>, idx: int, stop: int, x: int, y: int)
    -> (Seq<CellV>, Seq<(Rect, TabViewAction)>, int)
    decreases stop - idx,
{
    if idx >= stop || idx < 0 || idx >= tabs.len() {
        (Seq::empty(), Seq::empty(), x)
    } else {
        let p = htab_step(st, sty, tabs[idx], idx, x, y, idx + 1 < stop);
        let q = htabs(st, sty, tabs, idx + 1, stop, p.2, y);
        (p.0 + q.0, p.1 + q.1, q.2)
    }
}

/// The layout of a horizontal bar in `area`: a ◀ arrow when scrolled, the
/// tabs that fit from the scroll offset on (room kept for the arrows), and
/// a ▶ arrow at the right edge when more tabs follow.
pub open spec fn hbar(st: TabViewState, sty: TabViewStyle, tabs: Seq<Tab>, area: Rect) -> (Seq<CellV>, Seq<(Rect, TabViewAction)>) {
    let n = tabs.len() as int;
    let scroll = st.scroll_offset as int;
    let show_prev = scroll > 0;
    let show_next = terms_upto(tabs, sty, tabs.len() as int) > area.width && scroll + visible_h(tabs, sty, st.scroll_offset, area.width as int) < n;
    let w1 = if show_prev { if area.width >= 2 { area.width - 2 } else { 0 } } else { area.width as int };
    let w2 = if show_next { if w1 >= 2 { w1 - 2 } else { 0 } } else { w1 };
    let vc = visible_h(tabs, sty, st.scroll_offset, w2);
    let stop = if scroll + vc < n { scroll + vc } else { n };
    let x0 = if show_prev { area.x + 2 } else { area.x as int };
    let pre_c = if show_prev { seq![(area.x as int, area.y as int, sty.scroll_left@, fg_style(Color::Yellow))] } else { Seq::empty() };
    let pre_r = if show_prev { seq![(Rect::new_spec(area.x, area.y, 2, 1), TabViewAction::ScrollPrev)] } else { Seq::empty() };
    let body = htabs(st, sty, tabs, scroll, stop, x0, area.y as int);
    let ix = area.x + area.width - 2;
    let post_c = if show_next { seq![(ix, area.y as int, sty.scroll_right@, fg_style(Color::Yellow))] } else { Seq::empty() };
    let post_r = if show_next { seq![(Rect::new_spec(ix as u16, area.y, 2, 1), TabViewAction::ScrollNext)] } else { Seq::empty() };
    (pre_c + body.0 + post_c, pre_r + body.1 + post_r)
}


/// Every tab's display width fits in `usize`.
pub open spec fn widths_ok(tabs: Seq<Tab>) -> bool {
    forall|i: int| 0 <= i < tabs.len() ==> tab_width_spec(#[trigger] tabs[i]) <= usize::MAX
}

proof fn lemma_terms_monotone(tabs: Seq<Tab>, sty: TabViewStyle, a: int, b: int)
    requires
        0 <= a <= b,
    ensures
        0 <= terms_upto(tabs, sty, a) <= terms_upto(tabs, sty, b),
    decreases b,
{
    if b > 0 {
        if a < b {
            lemma_terms_monotone(tabs, sty, a, b - 1);
        } else {
            lemma_terms_monotone(tabs, sty, a - 1, b - 1);
        }
    }
}

proof fn lemma_htabs_grows(st: TabViewState, sty: TabViewStyle, tabs: Seq<Tab>, idx: int, stop: int, x: int, y: int)
    ensures
        htabs(st, sty, tabs, idx, stop, x, y).2 >= x,
        (idx < stop && 0 <= idx < tabs.len()) ==> htabs(st, sty, tabs, idx, stop, x, y).2
            >= htab_step(st, sty, tabs[idx], idx, x, y, idx + 1 < stop).2,
    decreases stop - idx,
{
    if idx < stop && 0 <= idx < tabs.len() {
        let p = htab_step(st, sty, tabs[idx], idx, x, y, idx + 1 < stop);
        lemma_htabs_grows(st, sty, tabs, idx + 1, stop, p.2, y);
    }
}

/// The text of a horizontal tab (see `htab_text`).
fn htab_label(st: &TabViewState, sty: &TabViewStyle, t: &Tab, idx: usize) -> (r: String)
    ensures
        r@ == htab_text(*st, *sty, *t, idx as int),
{
    let text = match t.icon {
        Some(i) => {
            let a = concat(i, " ");
            concat(a.as_str(), t.label)
        },
        None => string_from_str(t.label),
    };
    if st.selected_index == idx && sty.show_indicator {
        let a = concat(sty.indicator, " ");
        let b = concat(a.as_str(), text.as_str());
        concat(b.as_str(), " ")
    } else {
        let a = concat(" ", text.as_str());
        concat(a.as_str(), " ")
    }
}

/// The column after horizontal tab `idx` drawn from column `x` (see
/// `htab_step`), counted without the `u16` limit.
fn htab_end(st: &TabViewState, sty: &TabViewStyle, t: &Tab, idx: usize, x: u32, y: u16, divide: bool) -> (r: u32)
    requires
        x <= u16::MAX,
    ensures
        r == htab_step(*st, *sty, *t, idx as int, x as int, y as int, divide).2,
{
    let txt = htab_label(st, sty, t, idx);
    let x1 = x + (str_width(txt.as_str()) as u16) as u32;
    let x2 = match t.badge {
        Some(b) => {
            let a = concat(" ", b);
            let bt = concat(a.as_str(), " ");
            x1 + (str_width(bt.as_str()) as u16) as u32
        },
        None => x1,
    };
    if divide {
        x2 + (str_width(sty.divider) as u16) as u32
    } else {
        x2
    }
}

/// Appends the cells and region of one horizontal tab (see `htab_step`);
/// returns the column after it.
fn push_htab(
    st: &TabViewState,
    sty: &TabViewStyle,
    t: &Tab,
    idx: usize,
    x: u16,
    y: u16,
    divide: bool,
    cells: &mut Vec<TabCell>,
    regions: &mut Vec<(Rect, TabViewAction)>,
) -> (nx: u16)
    requires
        htab_step(*st, *sty, *t, idx as int, x as int, y as int, divide).2 <= u16::MAX,
    ensures
        ({
            let p = htab_step(*st, *sty, *t, idx as int, x as int, y as int, divide);
            &&& cells_are(final(cells)@, {
                let v = Seq::new(old(cells)@.len(), |k: int| (old(cells)@[k].x as int, old(cells)@[k].y as int, old(cells)@[k].text@, old(cells)@[k].style));
                v + p.0
            })
            &&& forall|k: int| 0 <= k < old(cells)@.len() ==> final(cells)@[k] == old(cells)@[k]
            &&& final(regions)@ == old(regions)@ + p.1
            &&& nx == p.2
        }),
{
    let ghost c0 = cells@;
    let txt = htab_label(st, sty, t, idx);
    let style = if !t.enabled {
        sty.disabled_style
    } else if idx == st.selected_index && st.focused && st.tab_bar_focused {
        sty.focused_style
    } else if idx == st.selected_index {
        sty.selected_style
    } else {
        sty.normal_style
    };
    let tw = str_width(txt.as_str()) as u16;
    proof {
        let p = htab_step(*st, *sty, *t, idx as int, x as int, y as int, divide);
        assert(x + tw <= p.2);
    }
    cells.push(TabCell { x, y, text: txt, style });
    let x1 = x + tw;
    let x2 = match t.badge {
        Some(b) => {
            let a = concat(" ", b);
            let bt = concat(a.as_str(), " ");
            let bw = str_width(bt.as_str()) as u16;
            cells.push(TabCell { x: x1, y, text: bt, style: sty.badge_style });
            x1 + bw
        },
        None => x1,
    };
    if x2 - x > 0 {
        regions.push((Rect::new(x, y, x2 - x, 1), TabViewAction::TabClick(idx)));
    }
    let x3 = if divide {
        let dw = str_width(sty.divider) as u16;
        cells.push(TabCell { x: x2, y, text: string_from_str(sty.divider), style: fg(Color::DarkGray) });
        x2 + dw
    } else {
        x2
    };
    proof {
        let p = htab_step(*st, *sty, *t, idx as int, x as int, y as int, divide);
        let v = Seq::new(c0.len(), |k: int| (c0[k].x as int, c0[k].y as int, c0[k].text@, c0[k].style));
        assert(cells@.len() == (v + p.0).len());
        assert forall|k: int| 0 <= k < cells@.len() implies cell_is(#[trigger] cells@[k], (v + p.0)[k]) by {
            if k < c0.len() {
                assert(cells@[k] == c0[k]);
            }
        }
    }
    x3
}

impl<'a> TabView<'a> {
    /// A tab view over `tabs` and `state` with the default style.
    pub fn new(tabs: &'a [Tab<'a>], state: &'a TabViewState) -> (v: Self)
        ensures
            v.tabs == tabs,
            v.state == state,
            tab_style_defaults(v.style),
            v.style.position == TabPosition::Top,
    {
        TabView { tabs, state, style: TabViewStyle::default() }
    }

    /// Sets the style.
    pub fn style(self, style: TabViewStyle) -> (v: Self)
        ensures
            v == (TabView { style, ..self }),
    {
        TabView { style, ..self }
    }

    /// The style of tab `idx` (see `tab_style_spec`).
    pub fn tab_style(&self, idx: usize, enabled: bool) -> (s: Style)
        ensures
            s == tab_style_spec(*self.state, self.style, idx as int, enabled),
    {
        if !enabled {
            self.style.disabled_style
        } else if idx == self.state.selected_index && self.state.focused && self.state.tab_bar_focused {
            self.style.focused_style
        } else if idx == self.state.selected_index {
            self.style.selected_style
        } else {
            self.style.normal_style
        }
    }

    /// Whether the tabs are wider than `available_width`, counting each
    /// tab and a divider.
    pub fn overflows_horizontally(&self, available_width: u16) -> (b: bool)
        requires
            widths_ok(self.tabs@),
            terms_upto(self.tabs@, self.style, self.tabs@.len() as int) <= u16::MAX,
        ensures
            b == (terms_upto(self.tabs@, self.style, self.tabs@.len() as int) > available_width),
    {
        let dw = str_width(self.style.divider) as u16;
        let mut total: u16 = 0;
        let mut i: usize = 0;
        while i < self.tabs.len()
            invariant
                i <= self.tabs@.len(),
                widths_ok(self.tabs@),
                dw == (str_width_of(self.style.divider@) as u16),
                terms_upto(self.tabs@, self.style, self.tabs@.len() as int) <= u16::MAX,
                total == terms_upto(self.tabs@, self.style, i as int),
            decreases self.tabs@.len() - i,
        {
            proof {
                lemma_terms_monotone(self.tabs@, self.style, i + 1, self.tabs@.len() as int);
                lemma_terms_monotone(self.tabs@, self.style, i as int, i + 1);
            }
            let w = self.tabs[i].display_width() as u16;
            total = total + (w + dw);
            i = i + 1;
        }
        total > available_width
    }
}


proof fn lemma_fit_bound(tabs: Seq<Tab>, sty: TabViewStyle, i: int, width: int, avail: int)
    requires
        0 <= i,
    ensures
        0 <= fit_from(tabs, sty, i, width, avail),
        i <= tabs.len() ==> fit_from(tabs, sty, i, width, avail) <= tabs.len() - i,
    decreases tabs.len() - i,
{
    if i < tabs.len() {
        lemma_fit_bound(tabs, sty, i + 1, width + tab_term(tabs[i], sty), avail);
    }
}

/// Drawing a horizontal bar in `area` keeps every count and column within
/// range.
pub open spec fn hbar_ok(st: TabViewState, sty: TabViewStyle, tabs: Seq<Tab>, area: Rect) -> bool {
    let n = tabs.len() as int;
    let scroll = st.scroll_offset as int;
    let overflow = terms_upto(tabs, sty, n) > area.width;
    let show_prev = scroll > 0;
    let show_next = overflow && scroll + visible_h(tabs, sty, st.scroll_offset, area.width as int) < n;
    let w1 = if show_prev { if area.width >= 2 { area.width - 2 } else { 0 } } else { area.width as int };
    let w2 = if show_next { if w1 >= 2 { w1 - 2 } else { 0 } } else { w1 };
    let vc = visible_h(tabs, sty, st.scroll_offset, w2);
    let stop = if scroll + vc < n { scroll + vc } else { n };
    let x0 = if show_prev { area.x + 2 } else { area.x as int };
    &&& widths_ok(tabs)
    &&& terms_upto(tabs, sty, n) <= u16::MAX
    &&& area.fits()
    &&& overflow ==> fit_fits(tabs, sty, scroll, 0, area.width as int) && scroll + visible_h(tabs, sty, st.scroll_offset, area.width as int) <= usize::MAX
    &&& fit_fits(tabs, sty, scroll, 0, w2)
    &&& show_prev ==> area.x + 2 <= u16::MAX
    &&& show_next ==> area.x + area.width >= 2
    &&& htabs(st, sty, tabs, scroll, stop, x0, area.y as int).2 <= u16::MAX
}

impl<'a> TabView<'a> {
    /// How many horizontal tabs are shown in `available_width` columns (see
    /// `visible_h`).
    pub fn visible_tabs_horizontal(&self, available_width: u16) -> (n: usize)
        requires
            widths_ok(self.tabs@),
            fit_fits(self.tabs@, self.style, self.state.scroll_offset as int, 0, available_width as int),
        ensures
            n == visible_h(self.tabs@, self.style, self.state.scroll_offset, available_width as int),
    {
        let dw = str_width(self.style.divider) as u16;
        let mut width: u16 = 0;
        let mut count: usize = 0;
        let mut i: usize = self.state.scroll_offset;
        proof {
            lemma_fit_bound(self.tabs@, self.style, i as int, 0, available_width as int);
        }
        while i < self.tabs.len()
            invariant_except_break
                widths_ok(self.tabs@),
                dw == (str_width_of(self.style.divider@) as u16),
                self.state.scroll_offset <= i,
                width <= available_width,
                count + fit_from(self.tabs@, self.style, i as int, width as int, available_width as int)
                    == fit_from(self.tabs@, self.style, self.state.scroll_offset as int, 0, available_width as int),
                fit_fits(self.tabs@, self.style, i as int, width as int, available_width as int),
                count <= i - self.state.scroll_offset,
            ensures
                count == fit_from(self.tabs@, self.style, self.state.scroll_offset as int, 0, available_width as int),
            decreases self.tabs@.len() - i,
        {
            let tw = (self.tabs[i].display_width() as u16) + dw;
            if width + tw > available_width {
                break;
            }
            width = width + tw;
            count = count + 1;
            i = i + 1;
        }
        if count >= 1 { count } else { 1 }
    }

    /// The cells and click regions of a horizontal bar in `area` (see
    /// `hbar`).
    pub fn horizontal_bar(&self, area: Rect) -> (r: (Vec<TabCell>, Vec<(Rect, TabViewAction)>))
        requires
            hbar_ok(*self.state, self.style, self.tabs@, area),
        ensures
            cells_are(r.0@, hbar(*self.state, self.style, self.tabs@, area).0),
            r.1@ == hbar(*self.state, self.style, self.tabs@, area).1,
    {
        let ghost spec = hbar(*self.state, self.style, self.tabs@, area);
        let n = self.tabs.len();
        let scroll = self.state.scroll_offset;
        let mut cells: Vec<TabCell> = Vec::new();
        let mut regions: Vec<(Rect, TabViewAction)> = Vec::new();
        let overflow = self.overflows_horizontally(area.width);
        let show_prev = scroll > 0;
        let show_next = overflow && scroll + self.visible_tabs_horizontal(area.width) < n;
        let w1 = if show_prev { area.width.saturating_sub(2) } else { area.width };
        let w2 = if show_next { w1.saturating_sub(2) } else { w1 };
        let vc = self.visible_tabs_horizontal(w2);
        proof {
            lemma_fit_bound(self.tabs@, self.style, scroll as int, 0, w2 as int);
        }
        let stop = if scroll >= n { scroll } else if scroll + vc < n { scroll + vc } else { n };
        let mut x = area.x;
        if show_prev {
            cells.push(TabCell { x, y: area.y, text: string_from_str(self.style.scroll_left), style: fg(Color::Yellow) });
            regions.push((Rect::new(x, area.y, 2, 1), TabViewAction::ScrollPrev));
            x = x + 2;
        }
        let ghost pre_v = Seq::new(cells@.len(), |k: int| (cells@[k].x as int, cells@[k].y as int, cells@[k].text@, cells@[k].style));
        let ghost pre_r = regions@;
        let ghost x0 = x as int;
        let mut idx: usize = scroll;
        while idx < stop
            invariant
                scroll <= idx,
                stop == (if scroll >= n { scroll as int } else if scroll + vc < n { scroll + vc } else { n as int }),
                stop <= n || stop == scroll,
                n == self.tabs@.len(),
                x0 <= x,
                htabs(*self.state, self.style, self.tabs@, idx as int, stop as int, x as int, area.y as int).2
                    == htabs(*self.state, self.style, self.tabs@, scroll as int, stop as int, x0, area.y as int).2,
                htabs(*self.state, self.style, self.tabs@, scroll as int, stop as int, x0, area.y as int).2 <= u16::MAX,
                ({
                    let q = htabs(*self.state, self.style, self.tabs@, idx as int, stop as int, x as int, area.y as int);
                    let all = htabs(*self.state, self.style, self.tabs@, scroll as int, stop as int, x0, area.y as int);
                    &&& cells_are(cells@, {
                        let cv = Seq::new(cells@.len(), |k: int| (cells@[k].x as int, cells@[k].y as int, cells@[k].text@, cells@[k].style));
                        cv
                    })
                    &&& Seq::new(cells@.len(), |k: int| (cells@[k].x as int, cells@[k].y as int, cells@[k].text@, cells@[k].style)) + q.0 == pre_v + all.0
                    &&& regions@ + q.1 == pre_r + all.1
                }),
            decreases stop - idx,
        {
            let divide = idx + 1 < stop;
            proof {
                lemma_htabs_grows(*self.state, self.style, self.tabs@, idx as int, stop as int, x as int, area.y as int);
            }
            let ghost cv0 = Seq::new(cells@.len(), |k: int| (cells@[k].x as int, cells@[k].y as int, cells@[k].text@, cells@[k].style));
            let ghost r0 = regions@;
            let ghost p = htab_step(*self.state, self.style, self.tabs@[idx as int], idx as int, x as int, area.y as int, divide);
            let nx = push_htab(self.state, &self.style, &self.tabs[idx], idx, x, area.y, divide, &mut cells, &mut regions);
            proof {
                let cv1 = Seq::new(cells@.len(), |k: int| (cells@[k].x as int, cells@[k].y as int, cells@[k].text@, cells@[k].style));
                assert(cv1 =~= cv0 + p.0);
                let q = htabs(*self.state, self.style, self.tabs@, idx + 1, stop as int, nx as int, area.y as int);
                assert(cv1 + q.0 =~= cv0 + (p.0 + q.0));
                assert(regions@ + q.1 =~= r0 + (p.1 + q.1));
            }
            x = nx;
            idx = idx + 1;
        }
        proof {
            lemma_htabs_grows(*self.state, self.style, self.tabs@, idx as int, stop as int, x as int, area.y as int);
        }
        if show_next {
            let ix = area.x + area.width - 2;
            cells.push(TabCell { x: ix, y: area.y, text: string_from_str(self.style.scroll_right), style: fg(Color::Yellow) });
            regions.push((Rect::new(ix, area.y, 2, 1), TabViewAction::ScrollNext));
        }
        proof {
            let cvf = Seq::new(cells@.len(), |k: int| (cells@[k].x as int, cells@[k].y as int, cells@[k].text@, cells@[k].style));
            assert(cells_are(cells@, cvf));
            assert(cvf =~= spec.0);
            assert(regions@ =~= spec.1);
        }
        (cells, regions)
    }
}


/// The text of a vertical tab in `width` columns: the indicator (or two
/// spaces), icon, label and badge in parentheses, cut with "…" or padded
/// to the width.
pub open spec fn vtab_text(st: TabViewState, sty: TabViewStyle, t: Tab, idx: int, width: int) -> Seq<char> {
    let head = if st.selected_index == idx && sty.show_indicator { sty.indicator@ + " "@ } else { "  "@ };
    let icon = match t.icon {
        Some(i) => i@ + " "@,
        None => Seq::empty(),
    };
    let badge = match t.badge {
        Some(b) => " ("@ + b@ + ")"@,
        None => Seq::empty(),
    };
    let text = head + icon + t.label@ + badge;
    if text.len() > width {
        take_at_most(text, width - 1) + "…"@
    } else {
        pad_right(text, width)
    }
}

/// The tabs `idx` to `stop` of a vertical bar, one per row from `y`, until
/// row `limit`.
pub open spec fn vtabs(st: TabViewState, sty: TabViewStyle, tabs: Seq<Tab>, idx: int, stop: int, y: int, limit: int, x: int, width: int)
    -> (Seq<CellV>, Seq<(Rect, TabViewAction)>)
    decreases stop - idx,
{
    if idx >= stop || idx < 0 || idx >= tabs.len() || y >= limit {
        (Seq::empty(), Seq::empty())
    } else {
        let t = tabs[idx];
        let c = (x, y, vtab_text(st, sty, t, idx, width), tab_style_spec(st, sty, idx, t.enabled));
        let r = (Rect::new_spec(x as u16, y as u16, width as u16, 1), TabViewAction::TabClick(idx as usize));
        let q = vtabs(st, sty, tabs, idx + 1, stop, y + 1, limit, x, width);
        (seq![c] + q.0, seq![r] + q.1)
    }
}

/// The layout of a vertical bar in `area`: a centered ▲ row when scrolled,
/// a row per tab from the scroll offset on, and a centered ▼ row at the
/// bottom when more tabs follow.
pub open spec fn vbar(st: TabViewState, sty: TabViewStyle, tabs: Seq<Tab>, area: Rect) -> (Seq<CellV>, Seq<(Rect, TabViewAction)>) {
    let n = tabs.len() as int;
    let scroll = st.scroll_offset as int;
    let vc0 = if (area.height as int) < n { area.height as int } else { n };
    let show_prev = scroll > 0;
    let show_next = scroll + vc0 < n;
    let h1 = if show_prev { if area.height >= 1 { area.height - 1 } else { 0 } } else { area.height as int };
    let avail = if show_next { if h1 >= 1 { h1 - 1 } else { 0 } } else { h1 };
    let vc = if avail < n - scroll { avail } else { n - scroll };
    let y0 = if show_prev { area.y + 1 } else { area.y as int };
    let limit = area.y + area.height - if show_next { 1int } else { 0 };
    let w = area.width as int;
    let pre_c = if show_prev { seq![(area.x as int, area.y as int, center(sty.scroll_up@, w), fg_style(Color::Yellow))] } else { Seq::empty() };
    let pre_r = if show_prev { seq![(Rect::new_spec(area.x, area.y, area.width, 1), TabViewAction::ScrollPrev)] } else { Seq::empty() };
    let body = vtabs(st, sty, tabs, scroll, scroll + vc, y0, limit, area.x as int, w);
    let iy = area.y + area.height - 1;
    let post_c = if show_next { seq![(area.x as int, iy, center(sty.scroll_down@, w), fg_style(Color::Yellow))] } else { Seq::empty() };
    let post_r = if show_next { seq![(Rect::new_spec(area.x, iy as u16, area.width, 1), TabViewAction::ScrollNext)] } else { Seq::empty() };
    (pre_c + body.0 + post_c, pre_r + body.1 + post_r)
}

/// Drawing a vertical bar in `area` keeps every count and row in range:
/// the scroll offset is at most the number of tabs, and a tab row has at
/// least one column.
pub open spec fn vbar_ok(st: TabViewState, tabs: Seq<Tab>, area: Rect) -> bool {
    let n = tabs.len() as int;
    let scroll = st.scroll_offset as int;
    let vc0 = if (area.height as int) < n { area.height as int } else { n };
    &&& area.fits()
    &&& scroll <= n
    &&& (scroll + vc0 < n ==> area.y + area.height >= 1)
    &&& (scroll < n && area.height > 0 ==> area.width >= 1)
    &&& (scroll > 0 ==> area.y + 1 <= u16::MAX)
}

/// Appends a vertical tab row.
fn push_vtab(
    st: &TabViewState,
    sty: &TabViewStyle,
    t: &Tab,
    idx: usize,
    x: u16,
    y: u16,
    width: u16,
    cells: &mut Vec<TabCell>,
    regions: &mut Vec<(Rect, TabViewAction)>,
)
    requires
        width >= 1,
    ensures
        final(cells)@ == old(cells)@.push(final(cells)@.last()),
        cell_is(final(cells)@.last(), (x as int, y as int, vtab_text(*st, *sty, *t, idx as int, width as int), tab_style_spec(*st, *sty, idx as int, t.enabled))),
        final(regions)@ == old(regions)@.push((Rect::new_spec(x, y, width, 1), TabViewAction::TabClick(idx))),
{
    let head = if st.selected_index == idx && sty.show_indicator { concat(sty.indicator, " ") } else { string_from_str("  ") };
    let with_icon = match t.icon {
        Some(i) => {
            let a = concat(head.as_str(), i);
            concat(a.as_str(), " ")
        },
        None => head,
    };
    let with_label = concat(with_icon.as_str(), t.label);
    let text = match t.badge {
        Some(b) => {
            let a = concat(with_label.as_str(), " (");
            let c = concat(a.as_str(), b);
            concat(c.as_str(), ")")
        },
        None => with_label,
    };
    proof {
        let hs = if st.selected_index == idx && sty.show_indicator { sty.indicator@ + " "@ } else { "  "@ };
        let is = match t.icon {
            Some(i) => i@ + " "@,
            None => Seq::<char>::empty(),
        };
        let bs = match t.badge {
            Some(b) => " ("@ + b@ + ")"@,
            None => Seq::<char>::empty(),
        };
        assert(with_icon@ =~= hs + is);
        assert(text@ =~= hs + is + t.label@ + bs);
    }
    let w = width as usize;
    let display = if text.as_str().unicode_len() > w {
        let cut = crate::text::take_chars(text.as_str(), w - 1);
        concat(cut.as_str(), "…")
    } else {
        pad_right_str(text.as_str(), w)
    };
    let style = if !t.enabled {
        sty.disabled_style
    } else if idx == st.selected_index && st.focused && st.tab_bar_focused {
        sty.focused_style
    } else if idx == st.selected_index {
        sty.selected_style
    } else {
        sty.normal_style
    };
    cells.push(TabCell { x, y, text: display, style });
    regions.push((Rect::new(x, y, width, 1), TabViewAction::TabClick(idx)));
}

impl<'a> TabView<'a> {
    /// The cells and click regions of a vertical bar in `area` (see
    /// `vbar`).
    pub fn vertical_bar(&self, area: Rect) -> (r: (Vec<TabCell>, Vec<(Rect, TabViewAction)>))
        requires
            vbar_ok(*self.state, self.tabs@, area),
        ensures
            cells_are(r.0@, vbar(*self.state, self.style, self.tabs@, area).0),
            r.1@ == vbar(*self.state, self.style, self.tabs@, area).1,
    {
        let ghost spec = vbar(*self.state, self.style, self.tabs@, area);
        let n = self.tabs.len();
        let scroll = self.state.scroll_offset;
        let x = area.x;
        let width = area.width;
        let h = area.height as usize;
        let vc0 = if h < n { h } else { n };
        let show_prev = scroll > 0;
        let show_next = scroll < n - vc0;
        let mut cells: Vec<TabCell> = Vec::new();
        let mut regions: Vec<(Rect, TabViewAction)> = Vec::new();
        let mut y = area.y;
        if show_prev {
            cells.push(TabCell { x, y, text: center_str(self.style.scroll_up, width as usize), style: fg(Color::Yellow) });
            regions.push((Rect::new(x, y, width, 1), TabViewAction::ScrollPrev));
            y = y + 1;
        }
        let h1 = if show_prev { area.height.saturating_sub(1) } else { area.height };
        let avail = (if show_next { h1.saturating_sub(1) } else { h1 }) as usize;
        let vc = if avail < n - scroll { avail } else { n - scroll };
        let limit = area.y + area.height - if show_next { 1 } else { 0 };
        let ghost pre_v = Seq::new(cells@.len(), |k: int| (cells@[k].x as int, cells@[k].y as int, cells@[k].text@, cells@[k].style));
        let ghost pre_r = regions@;
        let ghost y0 = y as int;
        let stop = scroll + vc;
        let mut idx: usize = scroll;
        while idx < stop && y < limit
            invariant
                scroll <= idx <= stop,
                scroll == self.state.scroll_offset,
                stop == scroll + vc,
                stop <= n,
                n == self.tabs@.len(),
                limit <= area.y + area.height,
                area.fits(),
                y0 <= y,
                vbar_ok(*self.state, self.tabs@, area),
                area.height > 0 || stop == scroll,
                width == area.width,
                x == area.x,
                ({
                    let q = vtabs(*self.state, self.style, self.tabs@, idx as int, stop as int, y as int, limit as int, x as int, width as int);
                    let all = vtabs(*self.state, self.style, self.tabs@, scroll as int, stop as int, y0, limit as int, x as int, width as int);
                    &&& cells_are(cells@, Seq::new(cells@.len(), |k: int| (cells@[k].x as int, cells@[k].y as int, cells@[k].text@, cells@[k].style)))
                    &&& Seq::new(cells@.len(), |k: int| (cells@[k].x as int, cells@[k].y as int, cells@[k].text@, cells@[k].style)) + q.0 == pre_v + all.0
                    &&& regions@ + q.1 == pre_r + all.1
                }),
            decreases stop - idx,
        {
            let ghost cv0 = Seq::new(cells@.len(), |k: int| (cells@[k].x as int, cells@[k].y as int, cells@[k].text@, cells@[k].style));
            let ghost r0 = regions@;
            assert(scroll < n);
            assert(width >= 1);
            push_vtab(self.state, &self.style, &self.tabs[idx], idx, x, y, width, &mut cells, &mut regions);
            proof {
                let cv1 = Seq::new(cells@.len(), |k: int| (cells@[k].x as int, cells@[k].y as int, cells@[k].text@, cells@[k].style));
                let t = self.tabs@[idx as int];
                let c = (x as int, y as int, vtab_text(*self.state, self.style, t, idx as int, width as int), tab_style_spec(*self.state, self.style, idx as int, t.enabled));
                assert(cv1 =~= cv0.push(c));
                let q = vtabs(*self.state, self.style, self.tabs@, idx + 1, stop as int, y + 1, limit as int, x as int, width as int);
                assert(cv1 + q.0 =~= cv0 + (seq![c] + q.0));
                assert(regions@ + q.1 =~= r0 + (seq![(Rect::new_spec(x, y, width, 1), TabViewAction::TabClick(idx))] + q.1));
            }
            y = y + 1;
            idx = idx + 1;
        }
        proof {
            let q = vtabs(*self.state, self.style, self.tabs@, idx as int, stop as int, y as int, limit as int, x as int, width as int);
            assert(q.0.len() == 0 && q.1.len() == 0);
        }
        if show_next {
            let iy = area.y + area.height - 1;
            cells.push(TabCell { x, y: iy, text: center_str(self.style.scroll_down, width as usize), style: fg(Color::Yellow) });
            regions.push((Rect::new(x, iy, width, 1), TabViewAction::ScrollNext));
        }
        proof {
            let cvf = Seq::new(cells@.len(), |k: int| (cells@[k].x as int, cells@[k].y as int, cells@[k].text@, cells@[k].style));
            assert(cells_are(cells@, cvf));
            assert(cvf =~= spec.0);
            assert(regions@ =~= spec.1);
        }
        (cells, regions)
    }

    /// The tab bar and the content areas: the bar takes `tab_height` rows
    /// (top or bottom) or `tab_width` columns, 16 by default (left or
    /// right), as ratatui's layout solver splits the area.
    pub fn layout(&self, area: Rect) -> (r: (Rect, Rect))
        ensures
            r == match self.style.position {
                TabPosition::Top => split_of(Direction::Vertical, Constraint::Length(self.style.tab_height), Constraint::Min(1), area),
                TabPosition::Bottom => {
                    let p = split_of(Direction::Vertical, Constraint::Min(1), Constraint::Length(self.style.tab_height), area);
                    (p.1, p.0)
                },
                TabPosition::Left => split_of(
                    Direction::Horizontal,
                    Constraint::Length(match self.style.tab_width { Some(w) => w, None => 16 }),
                    Constraint::Min(1),
                    area,
                ),
                TabPosition::Right => {
                    let p = split_of(
                        Direction::Horizontal,
                        Constraint::Min(1),
                        Constraint::Length(match self.style.tab_width { Some(w) => w, None => 16 }),
                        area,
                    );
                    (p.1, p.0)
                },
            },
    {
        let width = match self.style.tab_width {
            Some(w) => w,
            None => 16,
        };
        match self.style.position {
            TabPosition::Top => split_two(Direction::Vertical, Constraint::Length(self.style.tab_height), Constraint::Min(1), area),
            TabPosition::Bottom => {
                let (a, b) = split_two(Direction::Vertical, Constraint::Min(1), Constraint::Length(self.style.tab_height), area);
                (b, a)
            },
            TabPosition::Left => split_two(Direction::Horizontal, Constraint::Length(width), Constraint::Min(1), area),
            TabPosition::Right => {
                let (a, b) = split_two(Direction::Horizontal, Constraint::Min(1), Constraint::Length(width), area);
                (b, a)
            },
        }
    }

    /// The area given to the content renderer: inside the border when the
    /// content is bordered.
    pub fn content_inner(&self, area: Rect) -> (r: Rect)
        ensures
            r == if self.style.bordered_content { bordered_inner(area) } else { area },
    {
        if self.style.bordered_content {
            block_inner(area)
        } else {
            area
        }
    }
}


impl<'a> TabView<'a> {
    /// The cells and click regions of the tab bar in `area`: horizontal for
    /// top and bottom bars, vertical otherwise.
    pub fn tab_bar(&self, area: Rect) -> (r: (Vec<TabCell>, Vec<(Rect, TabViewAction)>))
        requires
            (self.style.position == TabPosition::Top || self.style.position == TabPosition::Bottom)
                ==> hbar_ok(*self.state, self.style, self.tabs@, area),
            !(self.style.position == TabPosition::Top || self.style.position == TabPosition::Bottom)
                ==> vbar_ok(*self.state, self.tabs@, area),
        ensures
            ({
                let e = if self.style.position == TabPosition::Top || self.style.position == TabPosition::Bottom {
                    hbar(*self.state, self.style, self.tabs@, area)
                } else {
                    vbar(*self.state, self.style, self.tabs@, area)
                };
                cells_are(r.0@, e.0) && r.1@ == e.1
            }),
    {
        if self.style.position.is_horizontal() {
            self.horizontal_bar(area)
        } else {
            self.vertical_bar(area)
        }
    }
}

/// With the whole bar within `u16` columns, every run of tabs from `i` on,
/// after `width` columns, stays within them too.
proof fn lemma_fit_fits_total(tabs: Seq<Tab>, sty: TabViewStyle, i: int, width: int, avail: int)
    requires
        0 <= i <= tabs.len(),
        width + (terms_upto(tabs, sty, tabs.len() as int) - terms_upto(tabs, sty, i)) <= u16::MAX,
    ensures
        fit_fits(tabs, sty, i, width, avail),
    decreases tabs.len() - i,
{
    if i < tabs.len() {
        lemma_terms_monotone(tabs, sty, i + 1, tabs.len() as int);
        lemma_fit_fits_total(tabs, sty, i + 1, width + tab_term(tabs[i], sty), avail);
    }
}

impl<'a> TabView<'a> {
    /// Whether every tab's width fits in `usize` and the whole bar, with
    /// its dividers, in `u16` columns: then `overflows_horizontally` and
    /// `visible_tabs_horizontal` can be called at any width.
    pub fn widths_fit(&self) -> (b: bool)
        ensures
            b == (widths_ok(self.tabs@) && terms_upto(self.tabs@, self.style, self.tabs@.len() as int) <= u16::MAX),
            b ==> forall|i: int, avail: int| 0 <= i ==> #[trigger] fit_fits(self.tabs@, self.style, i, 0, avail),
    {
        let n = self.tabs.len();
        let mut i: usize = 0;
        while i < n
            invariant
                n == self.tabs@.len(),
                i <= n,
                forall|j: int| 0 <= j < i ==> tab_width_spec(#[trigger] self.tabs@[j]) <= usize::MAX,
            decreases n - i,
        {
            if self.tabs[i].checked_display_width().is_none() {
                return false;
            }
            i = i + 1;
        }
        assert(widths_ok(self.tabs@));
        let dw = str_width(self.style.divider) as u16;
        let mut acc: u32 = 0;
        let mut k: usize = 0;
        while k < n
            invariant
                n == self.tabs@.len(),
                k <= n,
                widths_ok(self.tabs@),
                dw == (str_width_of(self.style.divider@) as u16),
                acc == terms_upto(self.tabs@, self.style, k as int),
                acc <= u16::MAX,
            decreases n - k,
        {
            let term = (self.tabs[k].display_width() as u16) as u32 + dw as u32;
            assert(term == tab_term(self.tabs@[k as int], self.style));
            if acc + term > 65535 {
                proof {
                    lemma_terms_monotone(self.tabs@, self.style, k + 1, n as int);
                }
                return false;
            }
            acc = acc + term;
            k = k + 1;
        }
        proof {
            assert forall|i: int, avail: int| 0 <= i implies #[trigger] fit_fits(self.tabs@, self.style, i, 0, avail) by {
                if i <= n {
                    lemma_terms_monotone(self.tabs@, self.style, 0, i);
                    lemma_fit_fits_total(self.tabs@, self.style, i, 0, avail);
                }
            }
        }
        true
    }

    /// The cells and click regions of the tab bar in `area` (see `tab_bar`),
    /// or `None` where drawing it would leave the `u16` or `usize` range
    /// (see `hbar_ok` and `vbar_ok`).
    pub fn try_tab_bar(&self, area: Rect) -> (r: Option<(Vec<TabCell>, Vec<(Rect, TabViewAction)>)>)
        ensures
            r is Some <==> (if self.style.position == TabPosition::Top || self.style.position == TabPosition::Bottom {
                hbar_ok(*self.state, self.style, self.tabs@, area)
            } else {
                vbar_ok(*self.state, self.tabs@, area)
            }),
            r matches Some(v) ==> ({
                let e = if self.style.position == TabPosition::Top || self.style.position == TabPosition::Bottom {
                    hbar(*self.state, self.style, self.tabs@, area)
                } else {
                    vbar(*self.state, self.style, self.tabs@, area)
                };
                cells_are(v.0@, e.0) && v.1@ == e.1
            }),
    {
        let horizontal = self.style.position == TabPosition::Top || self.style.position == TabPosition::Bottom;
        let fits = (area.x as u32) + (area.width as u32) <= 65535 && (area.y as u32) + (area.height as u32) <= 65535;
        if !fits {
            return None;
        }
        let n = self.tabs.len();
        let scroll = self.state.scroll_offset;
        if !horizontal {
            let vc0 = if (area.height as usize) < n { area.height as usize } else { n };
            let ok = scroll <= n
                && (!(scroll < n - vc0) || (area.y as u32) + (area.height as u32) >= 1)
                && (!(scroll < n && area.height > 0) || area.width >= 1)
                && (!(scroll > 0) || (area.y as u32) + 1 <= 65535);
            if !ok {
                return None;
            }
            return Some(self.tab_bar(area));
        }
        if !self.widths_fit() {
            return None;
        }
        let overflow = self.overflows_horizontally(area.width);
        let vh = self.visible_tabs_horizontal(area.width);
        if overflow && scroll > usize::MAX - vh {
            return None;
        }
        let show_prev = scroll > 0;
        let show_next = overflow && scroll + vh < n;
        if show_prev && area.x > 65533 {
            return None;
        }
        if show_next && (area.x as u32) + (area.width as u32) < 2 {
            return None;
        }
        let w1 = if show_prev { area.width.saturating_sub(2) } else { area.width };
        let w2 = if show_next { w1.saturating_sub(2) } else { w1 };
        let vc = self.visible_tabs_horizontal(w2);
        proof {
            lemma_fit_bound(self.tabs@, self.style, scroll as int, 0, w2 as int);
        }
        let stop = if scroll >= n { scroll } else if scroll + vc < n { scroll + vc } else { n };
        let x0: u32 = if show_prev { area.x as u32 + 2 } else { area.x as u32 };
        let mut x: u32 = x0;
        let mut idx: usize = scroll;
        let ghost target = htabs(*self.state, self.style, self.tabs@, scroll as int, stop as int, x0 as int, area.y as int).2;
        assert(hbar_ok(*self.state, self.style, self.tabs@, area) ==> target <= u16::MAX);
        while idx < stop
            invariant
                self.style.position == TabPosition::Top || self.style.position == TabPosition::Bottom,
                hbar_ok(*self.state, self.style, self.tabs@, area) ==> target <= u16::MAX,
                target == htabs(*self.state, self.style, self.tabs@, scroll as int, stop as int, x0 as int, area.y as int).2,
                scroll <= idx,
                stop == (if scroll >= n { scroll as int } else if scroll + vc < n { scroll + vc } else { n as int }),
                stop <= n || stop == scroll,
                n == self.tabs@.len(),
                x <= u16::MAX,
                htabs(*self.state, self.style, self.tabs@, idx as int, stop as int, x as int, area.y as int).2
                    == htabs(*self.state, self.style, self.tabs@, scroll as int, stop as int, x0 as int, area.y as int).2,
            decreases stop - idx,
        {
            let nx = htab_end(self.state, &self.style, &self.tabs[idx], idx, x, area.y, idx + 1 < stop);
            proof {
                lemma_htabs_grows(*self.state, self.style, self.tabs@, idx as int, stop as int, x as int, area.y as int);
            }
            if nx > 65535 {
                return None;
            }
            x = nx;
            idx = idx + 1;
        }
        proof {
            lemma_htabs_grows(*self.state, self.style, self.tabs@, idx as int, stop as int, x as int, area.y as int);
        }
        Some(self.tab_bar(area))
    }
}

/// Registers the regions, in order, after those already in the registry.
pub fn register_regions(regions: Vec<(Rect, TabViewAction)>, registry: &mut ClickRegionRegistry<TabViewAction>)
    ensures
        final(registry).regions_view().len() == old(registry).regions_view().len() + regions@.len(),
        forall|k: int| 0 <= k < old(registry).regions_view().len() ==> final(registry).regions_view()[k] == old(registry).regions_view()[k],
        forall|k: int| 0 <= k < regions@.len() ==> {
            let c = #[trigger] final(registry).regions_view()[old(registry).regions_view().len() + k];
            c.area == regions@[k].0 && c.data == regions@[k].1
        },
{
    let ghost start = registry.regions_view();
    let mut i: usize = 0;
    while i < regions.len()
        invariant
            i <= regions@.len(),
            registry.regions_view().len() == start.len() + i,
            forall|k: int| 0 <= k < start.len() ==> registry.regions_view()[k] == start[k],
            forall|k: int| 0 <= k < i ==> {
                let c = #[trigger] registry.regions_view()[start.len() + k];
                c.area == regions@[k].0 && c.data == regions@[k].1
            },
        decreases regions@.len() - i,
    {
        let (r, a) = regions[i];
        registry.register(r, a);
        i = i + 1;
    }
}

} // verus!
