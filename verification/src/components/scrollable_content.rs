//! Scrollable content: a pane of text lines with a scroll offset, focus
//! and fullscreen flags, key and wheel scrolling, and the layout of the
//! pane.
use vstd::prelude::*;
use vstd::string::*;
use crate::event::{KeyCode, KeyEvent, MouseEvent, MouseEventKind};
use crate::geometry::{block_inner, bordered_inner, titled_inner, titled_inner_spec, Rect};
use crate::style::{fg, fg_style, with_modifier, Color, Modifier, Style};
use crate::text::{concat, string_from_str};
use crate::click::rect_contains;

verus! {

/// What a scrollable pane did with an event.
#[derive(Debug, Clone, Copy, PartialEq, Eq, Structural)]
pub enum ScrollableContentAction {
    ScrollUp,
    ScrollDown,
    ScrollToTop,
    ScrollToBottom,
    PageUp,
    PageDown,
    ToggleFullscreen,
}

/// State of a scrollable pane.
#[derive(Debug, Clone)]
pub struct ScrollableContentState {
    lines: Vec<String>,
    scroll_offset: usize,
    focused: bool,
    fullscreen: bool,
    title: Option<String>,
}

/// `a - b`, or zero.
pub open spec fn sat_sub(a: int, b: int) -> int {
    if a >= b { a - b } else { 0 }
}

/// The lines joined with `sep` between them.
pub open spec fn join_spec(lines: Seq<String>, sep: Seq<char>, n: int) -> Seq<char>
    decreases n,
{
    if n <= 0 {
        Seq::empty()
    } else if n == 1 {
        lines[0]@
    } else {
        join_spec(lines, sep, n - 1) + sep + lines[n - 1]@
    }
}

impl ScrollableContentState {
    /// The lines.
    pub closed spec fn content(&self) -> Seq<String> {
        self.lines@
    }

    /// The scroll offset, in lines.
    pub closed spec fn offset(&self) -> usize {
        self.scroll_offset
    }

    /// Whether the pane has focus.
    pub closed spec fn has_focus(&self) -> bool {
        self.focused
    }

    /// Whether the pane is in fullscreen mode.
    pub closed spec fn in_fullscreen(&self) -> bool {
        self.fullscreen
    }

    /// The title.
    pub closed spec fn title_text(&self) -> Option<Seq<char>> {
        match self.title {
            Some(t) => Some(t@),
            None => None,
        }
    }

    /// `t` differs from `s` at most in the offset.
    pub open spec fn same_but_offset(s: Self, t: Self) -> bool {
        &&& t.content() == s.content()
        &&& t.has_focus() == s.has_focus()
        &&& t.in_fullscreen() == s.in_fullscreen()
        &&& t.title_text() == s.title_text()
    }

    /// A pane over `lines`, at the top, unfocused, not fullscreen, untitled.
    pub fn new(lines: Vec<String>) -> (s: Self)
        ensures
            s.content() == lines@,
            s.offset() == 0,
            !s.has_focus(),
            !s.in_fullscreen(),
            s.title_text() is None,
    {
        ScrollableContentState { lines, scroll_offset: 0, focused: false, fullscreen: false, title: None }
    }

    /// An empty pane.
    pub fn empty() -> (s: Self)
        ensures
            s.content().len() == 0,
            s.offset() == 0,
            !s.has_focus(),
            !s.in_fullscreen(),
            s.title_text() is None,
    {
        Self::new(Vec::new())
    }

    /// Replaces the lines, keeping the offset on a line (0 without lines).
    pub fn set_lines(&mut self, lines: Vec<String>)
        ensures
            final(self).content() == lines@,
            final(self).offset() == if lines@.len() > 0 {
                if old(self).offset() < lines@.len() - 1 { old(self).offset() as int } else { lines@.len() - 1 }
            } else {
                0
            },
            final(self).has_focus() == old(self).has_focus(),
            final(self).in_fullscreen() == old(self).in_fullscreen(),
            final(self).title_text() == old(self).title_text(),
    {
        self.lines = lines;
        if self.lines.len() > 0 {
            let last = self.lines.len() - 1;
            if self.scroll_offset > last {
                self.scroll_offset = last;
            }
        } else {
            self.scroll_offset = 0;
        }
    }

    /// The lines.
    pub fn lines(&self) -> (r: &[String])
        ensures
            r@ == self.content(),
    {
        self.lines.as_slice()
    }

    /// Appends a line.
    pub fn push_line(&mut self, line: &str)
        ensures
            final(self).content().len() == old(self).content().len() + 1,
            forall|i: int| 0 <= i < old(self).content().len() ==> final(self).content()[i] == old(self).content()[i],
            final(self).content().last()@ == line@,
            final(self).offset() == old(self).offset(),
            final(self).has_focus() == old(self).has_focus(),
            final(self).in_fullscreen() == old(self).in_fullscreen(),
            final(self).title_text() == old(self).title_text(),
    {
        self.lines.push(string_from_str(line));
    }

    /// Removes every line; back to the top.
    pub fn clear(&mut self)
        ensures
            final(self).content().len() == 0,
            final(self).offset() == 0,
            final(self).has_focus() == old(self).has_focus(),
            final(self).in_fullscreen() == old(self).in_fullscreen(),
            final(self).title_text() == old(self).title_text(),
    {
        self.lines.clear();
        self.scroll_offset = 0;
    }

    /// The number of lines.
    pub fn line_count(&self) -> (n: usize)
        ensures
            n == self.content().len(),
    {
        self.lines.len()
    }

    /// The scroll offset.
    pub fn scroll_offset(&self) -> (n: usize)
        ensures
            n == self.offset(),
    {
        self.scroll_offset
    }

    /// Sets the offset, at most the last line (0 without lines).
    pub fn set_scroll_offset(&mut self, offset: usize)
        ensures
            final(self).offset() == if old(self).content().len() > 0 {
                if offset < old(self).content().len() - 1 { offset as int } else { old(self).content().len() - 1 }
            } else {
                0
            },
            Self::same_but_offset(*old(self), *final(self)),
    {
        if self.lines.len() > 0 {
            let last = self.lines.len() - 1;
            self.scroll_offset = if offset < last { offset } else { last };
        } else {
            self.scroll_offset = 0;
        }
    }

    /// Whether the pane has focus.
    pub fn is_focused(&self) -> (b: bool)
        ensures
            b == self.has_focus(),
    {
        self.focused
    }

    /// Gives or takes focus.
    pub fn set_focused(&mut self, focused: bool)
        ensures
            final(self).has_focus() == focused,
            final(self).content() == old(self).content(),
            final(self).offset() == old(self).offset(),
            final(self).in_fullscreen() == old(self).in_fullscreen(),
            final(self).title_text() == old(self).title_text(),
    {
        self.focused = focused;
    }

    /// Whether the pane is in fullscreen mode.
    pub fn is_fullscreen(&self) -> (b: bool)
        ensures
            b == self.in_fullscreen(),
    {
        self.fullscreen
    }

    /// Enters or leaves fullscreen mode.
    pub fn set_fullscreen(&mut self, fullscreen: bool)
        ensures
            final(self).in_fullscreen() == fullscreen,
            final(self).content() == old(self).content(),
            final(self).offset() == old(self).offset(),
            final(self).has_focus() == old(self).has_focus(),
            final(self).title_text() == old(self).title_text(),
    {
        self.fullscreen = fullscreen;
    }

    /// Flips fullscreen mode; returns the new mode.
    pub fn toggle_fullscreen(&mut self) -> (b: bool)
        ensures
            b == !old(self).in_fullscreen(),
            final(self).in_fullscreen() == b,
            final(self).content() == old(self).content(),
            final(self).offset() == old(self).offset(),
            final(self).has_focus() == old(self).has_focus(),
            final(self).title_text() == old(self).title_text(),
    {
        self.fullscreen = !self.fullscreen;
        self.fullscreen
    }

    /// Sets the title.
    pub fn set_title(&mut self, title: &str)
        ensures
            final(self).title_text() == Some(title@),
            final(self).content() == old(self).content(),
            final(self).offset() == old(self).offset(),
            final(self).has_focus() == old(self).has_focus(),
            final(self).in_fullscreen() == old(self).in_fullscreen(),
    {
        self.title = Some(string_from_str(title));
    }

    /// The title.
    pub fn title(&self) -> (r: Option<&str>)
        ensures
            match self.title_text() {
                Some(t) => r matches Some(x) && x@ == t,
                None => r is None,
            },
    {
        match &self.title {
            Some(t) => Some(t.as_str()),
            None => None,
        }
    }

    /// Scrolls up `lines` lines, stopping at the top.
    pub fn scroll_up(&mut self, lines: usize)
        ensures
            final(self).offset() == sat_sub(old(self).offset() as int, lines as int),
            Self::same_but_offset(*old(self), *final(self)),
    {
        self.scroll_offset = self.scroll_offset.saturating_sub(lines);
    }

    /// Scrolls down `lines` lines, stopping where the last
    /// `visible_height` lines show. Nothing happens without lines.
    pub fn scroll_down(&mut self, lines: usize, visible_height: usize)
        requires
            old(self).content().len() > 0 ==> old(self).offset() + lines <= usize::MAX,
        ensures
            final(self).offset() == if old(self).content().len() == 0 {
                old(self).offset() as int
            } else {
                let max = sat_sub(old(self).content().len() as int, visible_height as int);
                if old(self).offset() + lines < max { old(self).offset() + lines } else { max }
            },
            Self::same_but_offset(*old(self), *final(self)),
    {
        if self.lines.len() == 0 {
            return;
        }
        let max_offset = self.lines.len().saturating_sub(visible_height);
        let t = self.scroll_offset + lines;
        self.scroll_offset = if t < max_offset { t } else { max_offset };
    }

    /// Scrolls to the top.
    pub fn scroll_to_top(&mut self)
        ensures
            final(self).offset() == 0,
            Self::same_but_offset(*old(self), *final(self)),
    {
        self.scroll_offset = 0;
    }

    /// Scrolls to where the last `visible_height` lines show. Nothing
    /// happens without lines.
    pub fn scroll_to_bottom(&mut self, visible_height: usize)
        ensures
            final(self).offset() == if old(self).content().len() == 0 {
                old(self).offset() as int
            } else {
                sat_sub(old(self).content().len() as int, visible_height as int)
            },
            Self::same_but_offset(*old(self), *final(self)),
    {
        if self.lines.len() == 0 {
            return;
        }
        self.scroll_offset = self.lines.len().saturating_sub(visible_height);
    }

    /// Scrolls up a page: one line less than the visible height.
    pub fn page_up(&mut self, visible_height: usize)
        ensures
            final(self).offset() == sat_sub(old(self).offset() as int, sat_sub(visible_height as int, 1)),
            Self::same_but_offset(*old(self), *final(self)),
    {
        self.scroll_up(visible_height.saturating_sub(1));
    }

    /// Scrolls down a page: one line less than the visible height.
    pub fn page_down(&mut self, visible_height: usize)
        requires
            old(self).content().len() > 0 ==> old(self).offset() + sat_sub(visible_height as int, 1) <= usize::MAX,
        ensures
            final(self).offset() == if old(self).content().len() == 0 {
                old(self).offset() as int
            } else {
                let max = sat_sub(old(self).content().len() as int, visible_height as int);
                let t = old(self).offset() + sat_sub(visible_height as int, 1);
                if t < max { t } else { max }
            },
            Self::same_but_offset(*old(self), *final(self)),
    {
        self.scroll_down(visible_height.saturating_sub(1), visible_height);
    }

    /// The lines shown in `height` rows: from the offset (at most the last
    /// line) on.
    pub fn visible_lines(&self, height: usize) -> (r: &[String])
        requires
            self.content().len() > 0 ==> self.offset() + height <= usize::MAX,
        ensures
            self.content().len() == 0 ==> r@.len() == 0,
            self.content().len() > 0 ==> {
                let n = self.content().len() as int;
                let start = if self.offset() < n - 1 { self.offset() as int } else { n - 1 };
                let end = if start + height < n { start + height } else { n };
                r@ == self.content().subrange(start, end)
            },
    {
        let n = self.lines.len();
        if n == 0 {
            return vstd::slice::slice_subrange(self.lines.as_slice(), 0, 0);
        }
        let start = if self.scroll_offset < n - 1 { self.scroll_offset } else { n - 1 };
        let end = if start + height < n { start + height } else { n };
        vstd::slice::slice_subrange(self.lines.as_slice(), start, end)
    }

    /// Whether the pane is at the top.
    pub fn is_at_top(&self) -> (b: bool)
        ensures
            b == (self.offset() == 0),
    {
        self.scroll_offset == 0
    }

    /// Whether the last `visible_height` lines show (always, without
    /// lines).
    pub fn is_at_bottom(&self, visible_height: usize) -> (b: bool)
        ensures
            b == (self.content().len() == 0 || self.offset() >= sat_sub(self.content().len() as int, visible_height as int)),
    {
        if self.lines.len() == 0 {
            return true;
        }
        self.scroll_offset >= self.lines.len().saturating_sub(visible_height)
    }

    /// The lines joined by newlines.
    pub fn content_as_string(&self) -> (r: String)
        ensures
            r@ == join_spec(self.content(), seq!['\n'], self.content().len() as int),
    {
        let mut r = String::new();
        let mut i: usize = 0;
        while i < self.lines.len()
            invariant
                i <= self.lines@.len(),
                r@ == join_spec(self.lines@, seq!['\n'], i as int),
            decreases self.lines@.len() - i,
        {
            if i == 0 {
                r = string_from_str(self.lines[0].as_str());
            } else {
                let a = concat(r.as_str(), "\n");
                proof {
                    reveal_strlit("\n");
                }
                r = concat(a.as_str(), self.lines[i].as_str());
            }
            i = i + 1;
        }
        r
    }
}

impl Default for ScrollableContentState {
    fn default() -> (s: Self)
        ensures
            s.content().len() == 0,
            s.offset() == 0,
            !s.has_focus(),
            !s.in_fullscreen(),
            s.title_text() is None,
    {
        Self::empty()
    }
}

/// Styles of a scrollable pane.
#[derive(Debug, Clone, Copy)]
pub struct ScrollableContentStyle {
    pub border_style: Style,
    pub focused_border_style: Style,
    pub text_style: Style,
    pub show_borders: bool,
    /// Show ▲ and ▼ on the border when there is more above or below.
    pub show_scroll_indicators: bool,
}

impl Default for ScrollableContentStyle {
    fn default() -> (s: Self)
        ensures
            s == (ScrollableContentStyle {
                border_style: fg_style(Color::DarkGray),
                focused_border_style: fg_style(Color::Cyan),
                text_style: fg_style(Color::White),
                show_borders: true,
                show_scroll_indicators: true,
            }),
    {
        ScrollableContentStyle {
            border_style: fg(Color::DarkGray),
            focused_border_style: fg(Color::Cyan),
            text_style: fg(Color::White),
            show_borders: true,
            show_scroll_indicators: true,
        }
    }
}

impl ScrollableContentStyle {
    /// The default style without borders.
    pub fn borderless() -> (s: Self)
        ensures
            s == (ScrollableContentStyle {
                border_style: fg_style(Color::DarkGray),
                focused_border_style: fg_style(Color::Cyan),
                text_style: fg_style(Color::White),
                show_borders: false,
                show_scroll_indicators: true,
            }),
    {
        ScrollableContentStyle { show_borders: false, ..Self::default() }
    }

    /// Sets the border color used with focus.
    pub fn with_focus_color(self, color: Color) -> (s: Self)
        ensures
            s == (ScrollableContentStyle { focused_border_style: fg_style(color), ..self }),
    {
        ScrollableContentStyle { focused_border_style: fg(color), ..self }
    }

    /// Sets the text style.
    pub fn text_style(self, style: Style) -> (s: Self)
        ensures
            s == (ScrollableContentStyle { text_style: style, ..self }),
    {
        ScrollableContentStyle { text_style: style, ..self }
    }
}


/// The scrollable pane widget: a state, a style and a title.
pub struct ScrollableContent<'a> {
    pub state: &'a ScrollableContentState,
    pub style: ScrollableContentStyle,
    pub title: Option<&'a str>,
}

/// What the pane draws in its area.
#[derive(Debug, Clone)]
pub struct ScrollView {
    pub border_style: Style,
    /// The border title and its style.
    pub title: Option<(String, Style)>,
    /// Where the lines go.
    pub inner: Rect,
    /// The lines shown, each in the text style.
    pub lines: Vec<String>,
    pub text_style: Style,
    /// Where ▲ goes, when there is more above.
    pub up_marker: Option<(u16, u16)>,
    /// Where ▼ goes, when there is more below.
    pub down_marker: Option<(u16, u16)>,
}

/// The area inside the pane's block: inside the borders, or under the
/// title, or all of it.
pub open spec fn pane_inner(area: Rect, borders: bool, titled: bool) -> Rect {
    if borders { bordered_inner(area) } else if titled { titled_inner_spec(area) } else { area }
}

/// The lines shown in `height` rows (see `visible_lines`).
pub open spec fn shown_lines(st: ScrollableContentState, height: int) -> Seq<String> {
    let n = st.content().len() as int;
    if n == 0 {
        Seq::empty()
    } else {
        let start = if st.offset() < n - 1 { st.offset() as int } else { n - 1 };
        let end = if start + height < n { start + height } else { n };
        st.content().subrange(start, end)
    }
}

impl<'a> ScrollableContent<'a> {
    /// A pane over `state` with the default style and the state's title.
    pub fn new(state: &'a ScrollableContentState) -> (w: Self)
        ensures
            w.state == state,
            w.style == ScrollableContentStyle::default_spec(),
            match state.title_text() {
                Some(t) => w.title matches Some(x) && x@ == t,
                None => w.title is None,
            },
    {
        ScrollableContent { state, style: ScrollableContentStyle::default(), title: state.title() }
    }

    /// Sets the style.
    pub fn style(self, style: ScrollableContentStyle) -> (w: Self)
        ensures
            w == (ScrollableContent { style, ..self }),
    {
        ScrollableContent { style, ..self }
    }

    /// Sets the title, over the state's.
    pub fn title(self, title: &'a str) -> (w: Self)
        ensures
            w == (ScrollableContent { title: Some(title), ..self }),
    {
        ScrollableContent { title: Some(title), ..self }
    }

    /// The content area: one cell in from each side when bordered.
    pub fn inner_area(&self, area: Rect) -> (r: Rect)
        requires
            self.style.show_borders ==> area.x < u16::MAX && area.y < u16::MAX,
        ensures
            r == if self.style.show_borders {
                Rect {
                    x: (area.x + 1) as u16,
                    y: (area.y + 1) as u16,
                    width: if area.width >= 2 { (area.width - 2) as u16 } else { 0 },
                    height: if area.height >= 2 { (area.height - 2) as u16 } else { 0 },
                }
            } else {
                area
            },
    {
        if self.style.show_borders {
            Rect {
                x: area.x + 1,
                y: area.y + 1,
                width: area.width.saturating_sub(2),
                height: area.height.saturating_sub(2),
            }
        } else {
            area
        }
    }

    /// What the pane draws in `area` (nothing in an empty area): its
    /// border style (the focused one with focus), the title " t " (bold
    /// with focus), the lines shown in the inner area, and the scroll
    /// markers at the right end of the top and bottom border rows when
    /// markers and borders are on, the area is over two rows high, and
    /// there is more above or below.
    pub fn view(&self, area: Rect) -> (r: Option<ScrollView>)
        requires
            area.fits(),
            self.state.content().len() > 0 ==> self.state.offset() + pane_inner(area, self.style.show_borders, self.title is Some).height <= usize::MAX,
            (self.style.show_scroll_indicators && self.style.show_borders && area.height > 2) ==> area.x + area.width >= 2,
        ensures
            (area.width == 0 || area.height == 0) ==> r is None,
            (area.width > 0 && area.height > 0) ==> (r matches Some(v) && {
                let bs = if self.state.has_focus() { self.style.focused_border_style } else { self.style.border_style };
                let inner = pane_inner(area, self.style.show_borders, self.title is Some);
                let vh = inner.height as int;
                let markers = self.style.show_scroll_indicators && self.style.show_borders && area.height > 2;
                let mx = (area.x + area.width - 2) as u16;
                &&& v.border_style == bs
                &&& (match self.title {
                    Some(t) => v.title matches Some((tt, ts)) && tt@ == " "@ + t@ + " "@
                        && ts == if self.state.has_focus() { with_modifier(bs, Modifier { bits: 1 }) } else { bs },
                    None => v.title is None,
                })
                &&& v.inner == inner
                &&& v.lines@.len() == shown_lines(*self.state, vh).len()
                &&& (forall|k: int| 0 <= k < v.lines@.len() ==> (#[trigger] v.lines@[k])@ == shown_lines(*self.state, vh)[k]@)
                &&& v.text_style == self.style.text_style
                &&& v.up_marker == if markers && self.state.offset() != 0 { Some((mx, area.y)) } else { None }
                &&& v.down_marker == if markers && !(self.state.content().len() == 0
                    || self.state.offset() >= sat_sub(self.state.content().len() as int, vh)) {
                    Some((mx, (area.y + area.height - 1) as u16))
                } else {
                    None
                }
            }),
    {
        if area.width == 0 || area.height == 0 {
            return None;
        }
        let bs = if self.state.focused { self.style.focused_border_style } else { self.style.border_style };
        let title = match self.title {
            Some(t) => {
                let a = concat(" ", t);
                let ts = if self.state.focused { bs.add_modifier(Modifier::bold()) } else { bs };
                Some((concat(a.as_str(), " "), ts))
            },
            None => None,
        };
        let inner = if self.style.show_borders {
            block_inner(area)
        } else if self.title.is_some() {
            titled_inner(area)
        } else {
            area
        };
        let vh = inner.height as usize;
        let shown = self.state.visible_lines(vh);
        let mut lines: Vec<String> = Vec::new();
        let mut k: usize = 0;
        while k < shown.len()
            invariant
                k <= shown@.len(),
                lines@.len() == k,
                forall|j: int| 0 <= j < k ==> (#[trigger] lines@[j])@ == shown@[j]@,
            decreases shown@.len() - k,
        {
            lines.push(string_from_str(shown[k].as_str()));
            k = k + 1;
        }
        let markers = self.style.show_scroll_indicators && self.style.show_borders && area.height > 2;
        let up = if markers && !self.state.is_at_top() {
            Some((area.x + area.width - 2, area.y))
        } else {
            None
        };
        let down = if markers && !self.state.is_at_bottom(vh) {
            Some((area.x + area.width - 2, area.y + area.height - 1))
        } else {
            None
        };
        Some(ScrollView { border_style: bs, title, inner, lines, text_style: self.style.text_style, up_marker: up, down_marker: down })
    }
}

impl ScrollableContentStyle {
    /// The default style, as a value.
    pub open spec fn default_spec() -> ScrollableContentStyle {
        ScrollableContentStyle {
            border_style: fg_style(Color::DarkGray),
            focused_border_style: fg_style(Color::Cyan),
            text_style: fg_style(Color::White),
            show_borders: true,
            show_scroll_indicators: true,
        }
    }
}

/// Lines scrolled by one wheel step.
pub const WHEEL_LINES: usize = 3;

/// Keyboard handling: Up/k and Down/j scroll a line, PageUp/PageDown a
/// page, Home/End to the top and bottom, F10 and Enter toggle fullscreen.
/// Returns the action taken.
pub fn handle_scrollable_content_key(
    state: &mut ScrollableContentState,
    key: &KeyEvent,
    visible_height: usize,
) -> (r: Option<ScrollableContentAction>)
    requires
        old(state).content().len() > 0 ==> match key.code {
            KeyCode::Down | KeyCode::Char('j') => old(state).offset() + 1 <= usize::MAX,
            KeyCode::PageDown => old(state).offset() + sat_sub(visible_height as int, 1) <= usize::MAX,
            _ => true,
        },
    ensures
        ScrollableContentState::same_but_offset(*old(state), *final(state)) || key.code == KeyCode::F(10) || key.code == KeyCode::Enter,
        match key.code {
            KeyCode::Up | KeyCode::Char('k') => r == Some(ScrollableContentAction::ScrollUp)
                && final(state).offset() == sat_sub(old(state).offset() as int, 1),
            KeyCode::Down | KeyCode::Char('j') => r == Some(ScrollableContentAction::ScrollDown)
                && final(state).offset() == if old(state).content().len() == 0 {
                    old(state).offset() as int
                } else {
                    let max = sat_sub(old(state).content().len() as int, visible_height as int);
                    if old(state).offset() + 1 < max { old(state).offset() + 1 } else { max }
                },
            KeyCode::PageUp => r == Some(ScrollableContentAction::PageUp)
                && final(state).offset() == sat_sub(old(state).offset() as int, sat_sub(visible_height as int, 1)),
            KeyCode::PageDown => r == Some(ScrollableContentAction::PageDown)
                && final(state).offset() == if old(state).content().len() == 0 {
                    old(state).offset() as int
                } else {
                    let max = sat_sub(old(state).content().len() as int, visible_height as int);
                    let t = old(state).offset() + sat_sub(visible_height as int, 1);
                    if t < max { t } else { max }
                },
            KeyCode::Home => r == Some(ScrollableContentAction::ScrollToTop) && final(state).offset() == 0,
            KeyCode::End => r == Some(ScrollableContentAction::ScrollToBottom)
                && final(state).offset() == if old(state).content().len() == 0 {
                    old(state).offset() as int
                } else {
                    sat_sub(old(state).content().len() as int, visible_height as int)
                },
            KeyCode::F(10) | KeyCode::Enter => r == Some(ScrollableContentAction::ToggleFullscreen)
                && final(state).in_fullscreen() == !old(state).in_fullscreen()
                && final(state).offset() == old(state).offset()
                && final(state).content() == old(state).content()
                && final(state).has_focus() == old(state).has_focus()
                && final(state).title_text() == old(state).title_text(),
            _ => r is None && *final(state) == *old(state),
        },
{
    match key.code {
        KeyCode::Up | KeyCode::Char('k') => {
            state.scroll_up(1);
            Some(ScrollableContentAction::ScrollUp)
        },
        KeyCode::Down | KeyCode::Char('j') => {
            state.scroll_down(1, visible_height);
            Some(ScrollableContentAction::ScrollDown)
        },
        KeyCode::PageUp => {
            state.page_up(visible_height);
            Some(ScrollableContentAction::PageUp)
        },
        KeyCode::PageDown => {
            state.page_down(visible_height);
            Some(ScrollableContentAction::PageDown)
        },
        KeyCode::Home => {
            state.scroll_to_top();
            Some(ScrollableContentAction::ScrollToTop)
        },
        KeyCode::End => {
            state.scroll_to_bottom(visible_height);
            Some(ScrollableContentAction::ScrollToBottom)
        },
        KeyCode::F(10) | KeyCode::Enter => {
            state.toggle_fullscreen();
            Some(ScrollableContentAction::ToggleFullscreen)
        },
        _ => None,
    }
}

/// Wheel handling inside `content_area`: up scrolls up 3 lines, down
/// scrolls down 3 lines. Returns the action taken.
pub fn handle_scrollable_content_mouse(
    state: &mut ScrollableContentState,
    mouse: &MouseEvent,
    content_area: Rect,
    visible_height: usize,
) -> (r: Option<ScrollableContentAction>)
    requires
        content_area.fits(),
        old(state).content().len() > 0 ==> old(state).offset() + WHEEL_LINES <= usize::MAX,
    ensures
        ScrollableContentState::same_but_offset(*old(state), *final(state)),
        !rect_contains(content_area, mouse.column, mouse.row) ==> r is None && *final(state) == *old(state),
        rect_contains(content_area, mouse.column, mouse.row) ==> match mouse.kind {
            MouseEventKind::ScrollUp => r == Some(ScrollableContentAction::ScrollUp)
                && final(state).offset() == sat_sub(old(state).offset() as int, WHEEL_LINES as int),
            MouseEventKind::ScrollDown => r == Some(ScrollableContentAction::ScrollDown)
                && final(state).offset() == if old(state).content().len() == 0 {
                    old(state).offset() as int
                } else {
                    let max = sat_sub(old(state).content().len() as int, visible_height as int);
                    if old(state).offset() + WHEEL_LINES < max { old(state).offset() + WHEEL_LINES } else { max }
                },
            _ => r is None && *final(state) == *old(state),
        },
{
    if mouse.column < content_area.x || mouse.column >= content_area.x + content_area.width
        || mouse.row < content_area.y || mouse.row >= content_area.y + content_area.height {
        return None;
    }
    match mouse.kind {
        MouseEventKind::ScrollUp => {
            state.scroll_up(WHEEL_LINES);
            Some(ScrollableContentAction::ScrollUp)
        },
        MouseEventKind::ScrollDown => {
            state.scroll_down(WHEEL_LINES, visible_height);
            Some(ScrollableContentAction::ScrollDown)
        },
        _ => None,
    }
}

/// Scrolling up undoes scrolling down by the same number of lines, when
/// the end was not reached; and scrolling down never passes the end (the
/// offset where the last `h` of `n` lines show) from an offset before it.
pub proof fn scroll_up_undoes_scroll_down(offset: usize, lines: usize, n: nat, h: usize)
    requires
        n > 0,
        offset <= sat_sub(n as int, h as int),
    ensures
        ({
            let max = sat_sub(n as int, h as int);
            let down = if offset + lines < max { offset + lines } else { max };
            &&& down <= max
            &&& offset + lines < max ==> sat_sub(down, lines as int) == offset
        }),
{
}

} // verus!
