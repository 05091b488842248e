//! List picker: a scrollable list with a selection cursor, and the lines
//! that show it. A line is a list of spans (text and style).
use vstd::prelude::*;
use vstd::string::*;
use crate::components::select::{dropdown_row_count, scroll_to_highlight};
use crate::geometry::{block_inner, bordered_inner, Rect};
use crate::style::{
    copy_spans, fg, fg_style, lemma_lines_match_concat, lines_match, plain_style, spans_match,
    with_modifier, Color, Modifier, Style,
};
use crate::text::{concat, spaces, string_from_str};
use vstd::utf8::encode_utf8;

verus! {

/// State of a list picker.
#[derive(Debug, Clone, Copy, PartialEq, Eq, Structural, Default)]
pub struct ListPickerState {
    pub selected_index: usize,
    pub scroll: u16,
    pub total_items: usize,
}

impl ListPickerState {
    /// The first item selected, not scrolled.
    pub fn new(total_items: usize) -> (s: Self)
        ensures
            s == (ListPickerState { selected_index: 0, scroll: 0, total_items }),
    {
        ListPickerState { selected_index: 0, scroll: 0, total_items }
    }

    /// Selects the previous item, stopping at the first.
    pub fn select_prev(&mut self)
        ensures
            *final(self) == (ListPickerState {
                selected_index: if old(self).selected_index > 0 { (old(self).selected_index - 1) as usize } else { 0 },
                ..*old(self)
            }),
    {
        if self.selected_index > 0 {
            self.selected_index -= 1;
        }
    }

    /// Selects the next item, stopping at the last.
    pub fn select_next(&mut self)
        ensures
            *final(self) == (ListPickerState {
                selected_index: if old(self).selected_index + 1 < old(self).total_items {
                    (old(self).selected_index + 1) as usize
                } else {
                    old(self).selected_index
                },
                ..*old(self)
            }),
    {
        if self.total_items > 0 && self.selected_index < self.total_items - 1 {
            self.selected_index += 1;
        }
    }

    /// Selects the item at `index`, when it exists.
    pub fn select(&mut self, index: usize)
        ensures
            *final(self) == (ListPickerState {
                selected_index: if index < old(self).total_items { index } else { old(self).selected_index },
                ..*old(self)
            }),
    {
        if index < self.total_items {
            self.selected_index = index;
        }
    }

    /// Selects the first item.
    pub fn select_first(&mut self)
        ensures
            *final(self) == (ListPickerState { selected_index: 0, ..*old(self) }),
    {
        self.selected_index = 0;
    }

    /// Selects the last item, when there is one.
    pub fn select_last(&mut self)
        ensures
            *final(self) == (ListPickerState {
                selected_index: if old(self).total_items > 0 {
                    (old(self).total_items - 1) as usize
                } else {
                    old(self).selected_index
                },
                ..*old(self)
            }),
    {
        if self.total_items > 0 {
            self.selected_index = self.total_items - 1;
        }
    }

    /// Scrolls so that the selected item is among the `viewport_height`
    /// shown.
    pub fn ensure_visible(&mut self, viewport_height: usize)
        ensures
            *final(self) == (ListPickerState {
                scroll: scroll_to_highlight(old(self).selected_index, old(self).scroll, viewport_height),
                ..*old(self)
            }),
    {
        if viewport_height == 0 {
            return;
        }
        if self.selected_index < self.scroll as usize {
            self.scroll = self.selected_index as u16;
        } else if self.selected_index - self.scroll as usize >= viewport_height {
            self.scroll = (self.selected_index - viewport_height + 1) as u16;
        }
    }

    /// Changes the number of items, pulling the selection back onto the
    /// last one when it falls off the end.
    pub fn set_total(&mut self, total: usize)
        ensures
            *final(self) == (ListPickerState {
                total_items: total,
                selected_index: if old(self).selected_index >= total && total > 0 {
                    (total - 1) as usize
                } else {
                    old(self).selected_index
                },
                ..*old(self)
            }),
    {
        self.total_items = total;
        if self.selected_index >= total && total > 0 {
            self.selected_index = total - 1;
        }
    }
}

/// Styles and indicators of a list picker.
#[derive(Debug, Clone, Copy)]
pub struct ListPickerStyle {
    pub selected_style: Style,
    pub normal_style: Style,
    pub indicator_style: Style,
    pub border_style: Style,
    /// Put before the selected item.
    pub indicator: &'static str,
    /// Put before the other items.
    pub indicator_empty: &'static str,
    pub bordered: bool,
}

/// Every field of `s` but the indicators and the selected style has its
/// default value.
pub open spec fn picker_style_defaults(s: ListPickerStyle) -> bool {
    &&& s.normal_style == fg_style(Color::White)
    &&& s.indicator_style == fg_style(Color::Yellow)
    &&& s.border_style == fg_style(Color::Cyan)
    &&& s.bordered
}

impl Default for ListPickerStyle {
    fn default() -> (s: Self)
        ensures
            picker_style_defaults(s),
            s.selected_style == with_modifier(fg_style(Color::Yellow), Modifier { bits: 1 }),
            s.indicator@ == "▶ "@,
            s.indicator_empty@ == "  "@,
    {
        ListPickerStyle {
            selected_style: fg(Color::Yellow).add_modifier(Modifier::bold()),
            normal_style: fg(Color::White),
            indicator_style: fg(Color::Yellow),
            border_style: fg(Color::Cyan),
            indicator: "▶ ",
            indicator_empty: "  ",
            bordered: true,
        }
    }
}

impl ListPickerStyle {
    /// The default style (an arrow before the selected item).
    pub fn arrow() -> (s: Self)
        ensures
            picker_style_defaults(s),
            s.selected_style == with_modifier(fg_style(Color::Yellow), Modifier { bits: 1 }),
            s.indicator@ == "▶ "@,
            s.indicator_empty@ == "  "@,
    {
        Self::default()
    }

    /// The default style with "> " before the selected item.
    pub fn bracket() -> (s: Self)
        ensures
            picker_style_defaults(s),
            s.selected_style == with_modifier(fg_style(Color::Yellow), Modifier { bits: 1 }),
            s.indicator@ == "> "@,
            s.indicator_empty@ == "  "@,
    {
        ListPickerStyle { indicator: "> ", indicator_empty: "  ", ..Self::default() }
    }

    /// Check boxes before the items, the selected one green.
    pub fn checkbox() -> (s: Self)
        ensures
            picker_style_defaults(s),
            s.selected_style == fg_style(Color::Green),
            s.indicator@ == "[x] "@,
            s.indicator_empty@ == "[ ] "@,
    {
        ListPickerStyle {
            indicator: "[x] ",
            indicator_empty: "[ ] ",
            selected_style: fg(Color::Green),
            ..Self::default()
        }
    }

    /// Shows or hides the border.
    pub fn bordered(self, bordered: bool) -> (s: Self)
        ensures
            s == (ListPickerStyle { bordered, ..self }),
    {
        ListPickerStyle { bordered, ..self }
    }
}

/// The list picker widget: items, state, style, optional title and footer,
/// and the function that turns an item into lines (given its index and
/// whether it is selected).
pub struct ListPicker<'a, T, F: Fn(&T, usize, bool) -> Vec<Vec<(String, Style)>>> {
    pub items: &'a [T],
    pub state: &'a ListPickerState,
    pub style: ListPickerStyle,
    pub title: Option<&'a str>,
    pub footer: Option<Vec<Vec<(String, Style)>>>,
    pub render_fn: F,
}

/// The texts and styles of a line.
pub open spec fn line_view(l: Vec<(String, Style)>) -> Seq<(Seq<char>, Style)> {
    Seq::new(l@.len(), |k: int| (l@[k].0@, l@[k].1))
}

/// The lines of item `idx`: its rendered lines, restyled; the first after
/// the indicator, the others after as many spaces as the indicator has
/// bytes.
pub open spec fn item_block(
    sty: ListPickerStyle,
    selected: usize,
    idx: int,
    rendered: Vec<Vec<(String, Style)>>,
) -> Seq<Seq<(Seq<char>, Style)>> {
    let sel = idx == selected;
    let item_style = if sel { sty.selected_style } else { sty.normal_style };
    let ind = if sel { sty.indicator@ } else { sty.indicator_empty@ };
    Seq::new(rendered@.len(), |j: int| {
        let head = if j == 0 {
            (ind, sty.indicator_style)
        } else {
            (spaces(encode_utf8(sty.indicator@).len()), plain_style())
        };
        seq![head] + Seq::new(rendered@[j]@.len(), |m: int| (rendered@[j]@[m].0@, item_style))
    })
}

/// The lines of the first `k` items shown, from `scroll` on.
pub open spec fn items_lines(
    sty: ListPickerStyle,
    selected: usize,
    scroll: int,
    rendered: Seq<Vec<Vec<(String, Style)>>>,
    k: int,
) -> Seq<Seq<(Seq<char>, Style)>>
    decreases k,
{
    if k <= 0 {
        Seq::empty()
    } else {
        items_lines(sty, selected, scroll, rendered, k - 1) + item_block(sty, selected, scroll + k - 1, rendered[k - 1])
    }
}

/// With one rendered line per item, the first `k` items shown take `k`
/// lines, and line `j` starts with the indicator when its item is the
/// selected one, else with the empty indicator.
proof fn lemma_one_line_items(sty: ListPickerStyle, selected: usize, scroll: int, rendered: Seq<Vec<Vec<(String, Style)>>>, k: int)
    requires
        0 <= k <= rendered.len(),
        forall|j: int| 0 <= j < rendered.len() ==> (#[trigger] rendered[j])@.len() == 1,
    ensures
        items_lines(sty, selected, scroll, rendered, k).len() == k,
        forall|j: int| 0 <= j < k ==> (#[trigger] items_lines(sty, selected, scroll, rendered, k)[j])[0] == (
            if scroll + j == selected { sty.indicator@ } else { sty.indicator_empty@ },
            sty.indicator_style,
        ),
    decreases k,
{
    if k > 0 {
        lemma_one_line_items(sty, selected, scroll, rendered, k - 1);
        let prev = items_lines(sty, selected, scroll, rendered, k - 1);
        let blk = item_block(sty, selected, scroll + k - 1, rendered[k - 1]);
        let all = items_lines(sty, selected, scroll, rendered, k);
        assert(all == prev + blk);
        assert forall|j: int| 0 <= j < k implies (#[trigger] all[j])[0] == (
            if scroll + j == selected { sty.indicator@ } else { sty.indicator_empty@ },
            sty.indicator_style,
        ) by {
            if j < k - 1 {
                assert(all[j] == prev[j]);
            } else {
                assert(all[j] == blk[0]);
            }
        }
    }
}

/// A picker whose items each render as one line draws the title and an
/// empty line (when titled), one line per item shown, then the footer;
/// the line of the item at `scroll + j` starts with the indicator exactly
/// when that item is the selected one.
pub proof fn picker_lines_one_per_item(
    title: Option<&str>,
    footer: Option<Vec<Vec<(String, Style)>>>,
    n_items: int,
    sty: ListPickerStyle,
    st: ListPickerState,
    rendered: Seq<Vec<Vec<(String, Style)>>>,
)
    requires
        n_items > 0,
        forall|j: int| 0 <= j < rendered.len() ==> (#[trigger] rendered[j])@.len() == 1,
    ensures
        ({
            let h: int = if title is Some { 2 } else { 0 };
            let lines = picker_lines(title, footer, n_items, sty, st, rendered);
            &&& lines.len() == h + rendered.len() + footer_lines(footer).len()
            &&& forall|j: int| 0 <= j < rendered.len() ==> (#[trigger] lines[h + j])[0] == (
                if st.scroll + j == st.selected_index { sty.indicator@ } else { sty.indicator_empty@ },
                sty.indicator_style,
            )
        }),
{
    let k = rendered.len() as int;
    lemma_one_line_items(sty, st.selected_index, st.scroll as int, rendered, k);
    let h: int = if title is Some { 2 } else { 0 };
    let head: Seq<Seq<(Seq<char>, Style)>> = match title {
        Some(t) => seq![seq![(t@, with_modifier(fg_style(Color::Cyan), Modifier { bits: 1 }))], Seq::empty()],
        None => Seq::empty(),
    };
    let body = items_lines(sty, st.selected_index, st.scroll as int, rendered, k);
    let lines = picker_lines(title, footer, n_items, sty, st, rendered);
    assert(lines == head + body + footer_lines(footer));
    assert(head.len() == h);
    assert forall|j: int| 0 <= j < rendered.len() implies (#[trigger] lines[h + j])[0] == (
        if st.scroll + j == st.selected_index { sty.indicator@ } else { sty.indicator_empty@ },
        sty.indicator_style,
    ) by {
        assert(lines[h + j] == body[j]);
    }
}

/// The rows left for items: the inner height less the title (two rows)
/// and the footer.
pub open spec fn picker_rows(title: bool, footer: Option<Vec<Vec<(String, Style)>>>, h: u16) -> int {
    h - (if title { 2int } else { 0 }) - match footer {
        Some(f) => f@.len() as int,
        None => 0,
    }
}

/// All lines: the title and an empty line, then "No items" or the items
/// shown (given their rendered lines), then the footer.
pub open spec fn picker_lines(
    title: Option<&str>,
    footer: Option<Vec<Vec<(String, Style)>>>,
    n_items: int,
    sty: ListPickerStyle,
    st: ListPickerState,
    rendered: Seq<Vec<Vec<(String, Style)>>>,
) -> Seq<Seq<(Seq<char>, Style)>> {
    let head = match title {
        Some(t) => seq![seq![(t@, with_modifier(fg_style(Color::Cyan), Modifier { bits: 1 }))], Seq::empty()],
        None => Seq::empty(),
    };
    let body = if n_items == 0 {
        seq![seq![("No items"@, fg_style(Color::Gray))]]
    } else {
        items_lines(sty, st.selected_index, st.scroll as int, rendered, rendered.len() as int)
    };
    head + body + footer_lines(footer)
}

/// The texts and styles of the footer lines.
pub open spec fn footer_lines(footer: Option<Vec<Vec<(String, Style)>>>) -> Seq<Seq<(Seq<char>, Style)>> {
    match footer {
        Some(f) => Seq::new(f@.len(), |k: int| line_view(f@[k])),
        None => Seq::empty(),
    }
}

/// Appends a copy of a line.
fn push_copy(out: &mut Vec<Vec<(String, Style)>>, l: &Vec<(String, Style)>)
    ensures
        final(out)@.len() == old(out)@.len() + 1,
        forall|k: int| 0 <= k < old(out)@.len() ==> final(out)@[k] == old(out)@[k],
        spans_match(final(out)@.last()@, line_view(*l)),
{
    out.push(copy_spans(l));
}

/// The default rendering of a text item: one line, its text unstyled.
pub fn text_line(item: &String, index: usize, selected: bool) -> (r: Vec<Vec<(String, Style)>>)
    ensures
        r@.len() == 1,
        r@[0]@.len() == 1,
        r@[0]@[0].0@ == item@,
        r@[0]@[0].1 == plain_style(),
{
    vec![vec![(string_from_str(item.as_str()), Style::new())]]
}

impl<'a, T, F: Fn(&T, usize, bool) -> Vec<Vec<(String, Style)>>> ListPicker<'a, T, F> {
    /// A picker over `items`, rendered by `render_fn`, with the default
    /// style, no title and no footer.
    pub fn new(items: &'a [T], state: &'a ListPickerState, render_fn: F) -> (p: Self)
        ensures
            p.items == items,
            p.state == state,
            p.title is None,
            p.footer is None,
            p.render_fn == render_fn,
            picker_style_defaults(p.style),
            p.style.indicator@ == "▶ "@,
    {
        ListPicker { items, state, style: ListPickerStyle::default(), title: None, footer: None, render_fn }
    }

    /// The same picker with another render function.
    pub fn render_item<G: Fn(&T, usize, bool) -> Vec<Vec<(String, Style)>>>(self, render_fn: G) -> (p: ListPicker<'a, T, G>)
        ensures
            p.items == self.items,
            p.state == self.state,
            p.style == self.style,
            p.title == self.title,
            p.footer == self.footer,
            p.render_fn == render_fn,
    {
        ListPicker {
            items: self.items,
            state: self.state,
            style: self.style,
            title: self.title,
            footer: self.footer,
            render_fn,
        }
    }

    /// Sets the title.
    pub fn title(self, title: &'a str) -> (p: Self)
        ensures
            p == (ListPicker { title: Some(title), ..self }),
    {
        ListPicker { title: Some(title), ..self }
    }

    /// Sets the footer lines.
    pub fn footer(self, footer: Vec<Vec<(String, Style)>>) -> (p: Self)
        ensures
            p == (ListPicker { footer: Some(footer), ..self }),
    {
        ListPicker { footer: Some(footer), ..self }
    }

    /// Sets the style.
    pub fn style(self, style: ListPickerStyle) -> (p: Self)
        ensures
            p == (ListPicker { style, ..self }),
    {
        ListPicker { style, ..self }
    }

    /// Where the lines go: inside the border when there is one.
    pub fn inner_area(&self, area: Rect) -> (r: Rect)
        ensures
            r == if self.style.bordered { bordered_inner(area) } else { area },
    {
        if self.style.bordered {
            block_inner(area)
        } else {
            area
        }
    }

    /// The lines shown in an area `inner_height` rows high: the title, the
    /// items that fit from the scroll offset on (each rendered by
    /// `render_fn`), and the footer (see `picker_lines`). The area must
    /// hold the title and the footer.
    pub fn build_lines(&self, inner_height: u16) -> (r: Vec<Vec<(String, Style)>>)
        requires
            picker_rows(self.title is Some, self.footer, inner_height) >= 0,
            forall|i: usize, s: bool| i < self.items@.len() ==> #[trigger] call_requires(self.render_fn, (&self.items@[i as int], i, s)),
        ensures
            exists|rendered: Seq<Vec<Vec<(String, Style)>>>| {
                &&& rendered.len() == (if self.items@.len() == 0 { 0 } else {
                    dropdown_row_count(self.items@.len() as int, self.state.scroll as int,
                        picker_rows(self.title is Some, self.footer, inner_height))
                })
                &&& forall|k: int| 0 <= k < rendered.len() ==> {
                    let i = self.state.scroll + k;
                    call_ensures(self.render_fn, (&self.items@[i], i as usize, i == self.state.selected_index), #[trigger] rendered[k])
                }
                &&& lines_match(r@, picker_lines(self.title, self.footer, self.items@.len() as int, self.style, *self.state, rendered))
            },
    {
        let mut lines: Vec<Vec<(String, Style)>> = Vec::new();
        let ghost head: Seq<Seq<(Seq<char>, Style)>> = match self.title {
            Some(t) => seq![seq![(t@, with_modifier(fg_style(Color::Cyan), Modifier { bits: 1 }))], Seq::empty()],
            None => Seq::empty(),
        };
        match self.title {
            Some(t) => {
                let mut l: Vec<(String, Style)> = Vec::new();
                l.push((string_from_str(t), fg(Color::Cyan).add_modifier(Modifier::bold())));
                lines.push(l);
                lines.push(Vec::new());
            },
            None => {},
        }
        assert(lines_match(lines@, head));
        let header_lines: usize = if self.title.is_some() { 2 } else { 0 };
        let footer_count: usize = match &self.footer {
            Some(f) => f.len(),
            None => 0,
        };
        let available = inner_height as usize - header_lines - footer_count;
        let ghost mut rendered: Seq<Vec<Vec<(String, Style)>>> = Seq::empty();
        let n = self.items.len();
        if n == 0 {
            let mut l: Vec<(String, Style)> = Vec::new();
            l.push((string_from_str("No items"), fg(Color::Gray)));
            let ghost before = lines@;
            lines.push(l);
            proof {
                lemma_lines_match_concat(before, head, seq![l], seq![seq![("No items"@, fg_style(Color::Gray))]]);
                assert(lines@ =~= before + seq![l]);
            }
        } else {
            let scroll = self.state.scroll as usize;
            let mut i: usize = scroll;
            while i < n && i - scroll < available
                invariant
                    n == self.items@.len(),
                    n > 0,
                    scroll == self.state.scroll,
                    available == picker_rows(self.title is Some, self.footer, inner_height),
                    forall|i: usize, s: bool| i < self.items@.len() ==> #[trigger] call_requires(self.render_fn, (&self.items@[i as int], i, s)),
                    scroll <= i,
                    i - scroll <= available,
                    scroll <= n ==> i <= n,
                    scroll > n ==> i == scroll,
                    rendered.len() == i - scroll,
                    forall|k: int| 0 <= k < rendered.len() ==> {
                        let j = self.state.scroll + k;
                        call_ensures(self.render_fn, (&self.items@[j], j as usize, j == self.state.selected_index), #[trigger] rendered[k])
                    },
                    lines_match(lines@, head + items_lines(self.style, self.state.selected_index, scroll as int, rendered, rendered.len() as int)),
                decreases n - i,
            {
                let sel = i == self.state.selected_index;
                assert(call_requires(self.render_fn, (&self.items@[i as int], i, sel)));
                let item_lines = (self.render_fn)(&self.items[i], i, sel);
                let ind = if sel { self.style.indicator } else { self.style.indicator_empty };
                let item_style = if sel { self.style.selected_style } else { self.style.normal_style };
                let ghost base = lines@;
                let ghost expect = head + items_lines(self.style, self.state.selected_index, scroll as int, rendered, rendered.len() as int);
                let ghost block = item_block(self.style, self.state.selected_index, i as int, item_lines);
                let mut j: usize = 0;
                while j < item_lines.len()
                    invariant
                        j <= item_lines@.len(),
                        lines@.len() == base.len() + j,
                        forall|m: int| 0 <= m < base.len() ==> lines@[m] == base[m],
                        lines_match(base, expect),
                        block == item_block(self.style, self.state.selected_index, i as int, item_lines),
                        sel == (i == self.state.selected_index),
                        ind@ == (if sel { self.style.indicator@ } else { self.style.indicator_empty@ }),
                        item_style == (if sel { self.style.selected_style } else { self.style.normal_style }),
                        forall|m: int| 0 <= m < j ==> spans_match((#[trigger] lines@[base.len() + m])@, block[m]),
                    decreases item_lines@.len() - j,
                {
                    let mut spans: Vec<(String, Style)> = Vec::new();
                    if j == 0 {
                        spans.push((string_from_str(ind), self.style.indicator_style));
                    } else {
                        let w = self.style.indicator.as_bytes().len();
                        let mut pad: Vec<char> = Vec::new();
                        let mut q: usize = 0;
                        while q < w
                            invariant
                                q <= w,
                                pad@ == spaces(q as nat),
                            decreases w - q,
                        {
                            pad.push(' ');
                            assert(pad@ =~= spaces((q + 1) as nat));
                            q = q + 1;
                        }
                        spans.push((crate::text::string_from_chars(&pad), Style::new()));
                    }
                    let src = &item_lines[j];
                    let mut m: usize = 0;
                    while m < src.len()
                        invariant
                            m <= src@.len(),
                            spans@.len() == 1 + m,
                            spans@[0].0@ == block[j as int][0].0,
                            spans@[0].1 == block[j as int][0].1,
                            *src == item_lines@[j as int],
                            j < item_lines@.len(),
                            block == item_block(self.style, self.state.selected_index, i as int, item_lines),
                            item_style == (if i == self.state.selected_index { self.style.selected_style } else { self.style.normal_style }),
                            forall|x: int| 1 <= x < 1 + m ==> (#[trigger] spans@[x]).0@ == src@[x - 1].0@ && spans@[x].1 == item_style,
                        decreases src@.len() - m,
                    {
                        spans.push((string_from_str(src[m].0.as_str()), item_style));
                        m = m + 1;
                    }
                    proof {
                        assert(spans_match(spans@, block[j as int]));
                    }
                    lines.push(spans);
                    j = j + 1;
                }
                proof {
                    let new_rendered = rendered.push(item_lines);
                    assert(items_lines(self.style, self.state.selected_index, scroll as int, new_rendered, new_rendered.len() as int)
                        =~= items_lines(self.style, self.state.selected_index, scroll as int, rendered, rendered.len() as int) + block) by {
                        lemma_items_lines_prefix(self.style, self.state.selected_index, scroll as int, rendered, item_lines, rendered.len() as int);
                    }
                    let tail = lines@.subrange(base.len() as int, lines@.len() as int);
                    assert forall|m: int| 0 <= m < tail.len() implies spans_match((#[trigger] tail[m])@, block[m]) by {
                        assert(tail[m] == lines@[base.len() + m]);
                    }
                    assert(lines_match(tail, block));
                    lemma_lines_match_concat(base, expect, tail, block);
                    assert(lines@ =~= base + tail);
                    rendered = new_rendered;
                }
                i = i + 1;
            }
        }
        let ghost mid = lines@;
        match &self.footer {
            Some(f) => {
                let mut k: usize = 0;
                while k < f.len()
                    invariant
                        k <= f@.len(),
                        lines@.len() == mid.len() + k,
                        forall|m: int| 0 <= m < mid.len() ==> lines@[m] == mid[m],
                        forall|m: int| 0 <= m < k ==> spans_match((#[trigger] lines@[mid.len() + m])@, line_view(f@[m])),
                    decreases f@.len() - k,
                {
                    push_copy(&mut lines, &f[k]);
                    k = k + 1;
                }
            },
            None => {},
        }
        proof {
            let body = if n == 0 {
                seq![seq![("No items"@, fg_style(Color::Gray))]]
            } else {
                items_lines(self.style, self.state.selected_index, self.state.scroll as int, rendered, rendered.len() as int)
            };
            let foot = footer_lines(self.footer);
            assert(lines_match(mid, head + body));
            let tail = lines@.subrange(mid.len() as int, lines@.len() as int);
            assert forall|m: int| 0 <= m < tail.len() implies spans_match((#[trigger] tail[m])@, foot[m]) by {
                assert(tail[m] == lines@[mid.len() + m]);
            }
            assert(lines_match(tail, foot));
            lemma_lines_match_concat(mid, head + body, tail, foot);
            assert(lines@ =~= mid + tail);
            assert(lines_match(lines@, picker_lines(self.title, self.footer, n as int, self.style, *self.state, rendered)));
        }
        lines
    }
}

proof fn lemma_items_lines_prefix(
    sty: ListPickerStyle,
    selected: usize,
    scroll: int,
    rendered: Seq<Vec<Vec<(String, Style)>>>,
    x: Vec<Vec<(String, Style)>>,
    k: int,
)
    requires
        0 <= k <= rendered.len(),
    ensures
        items_lines(sty, selected, scroll, rendered.push(x), k) == items_lines(sty, selected, scroll, rendered, k),
        k == rendered.len() ==> items_lines(sty, selected, scroll, rendered.push(x), k + 1)
            == items_lines(sty, selected, scroll, rendered, k) + item_block(sty, selected, scroll + k, x),
    decreases k,
{
    if k > 0 {
        lemma_items_lines_prefix(sty, selected, scroll, rendered, x, k - 1);
    }
}

/// The spans of the first `k` key hints: "key" in green and ": action",
/// with " | " between hints.
pub open spec fn hints_spans(hints: Seq<(&str, &str)>, k: int) -> Seq<(Seq<char>, Style)>
    decreases k,
{
    if k <= 0 {
        Seq::empty()
    } else {
        let sep = if k > 1 { seq![(" | "@, plain_style())] } else { Seq::empty() };
        hints_spans(hints, k - 1) + sep + seq![
            (hints[k - 1].0@, fg_style(Color::Green)),
            (": "@ + hints[k - 1].1@, plain_style()),
        ]
    }
}

/// A footer of key hints: an empty line, then the hints (see
/// `hints_spans`).
pub fn key_hints_footer(hints: &[(&str, &str)]) -> (r: Vec<Vec<(String, Style)>>)
    ensures
        r@.len() == 2,
        r@[0]@.len() == 0,
        spans_match(r@[1]@, hints_spans(hints@, hints@.len() as int)),
{
    let mut spans: Vec<(String, Style)> = Vec::new();
    let mut k: usize = 0;
    while k < hints.len()
        invariant
            k <= hints@.len(),
            spans_match(spans@, hints_spans(hints@, k as int)),
        decreases hints@.len() - k,
    {
        let ghost before = spans@;
        if k > 0 {
            spans.push((string_from_str(" | "), Style::new()));
        }
        spans.push((string_from_str(hints[k].0), fg(Color::Green)));
        spans.push((concat(": ", hints[k].1), Style::new()));
        proof {
            let e = hints_spans(hints@, k + 1);
            assert(spans_match(spans@, e)) by {
                assert forall|m: int| 0 <= m < spans@.len() implies (#[trigger] spans@[m]).0@ == e[m].0 && spans@[m].1 == e[m].1 by {
                    if m < before.len() {
                        assert(spans@[m] == before[m]);
                    }
                }
            }
        }
        k = k + 1;
    }
    let mut r: Vec<Vec<(String, Style)>> = Vec::new();
    r.push(Vec::new());
    r.push(spans);
    r
}

} // verus!
