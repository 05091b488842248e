//! Breadcrumb: a hierarchical path of items, collapsed with an ellipsis
//! when long, navigable with keys and clicks.
use vstd::prelude::*;
use crate::click::{rect_contains, regions_fit, ClickRegion};
use crate::event::{KeyCode, KeyEvent, MouseButton, MouseEvent, MouseEventKind};
use crate::geometry::Rect;
use crate::style::{fg, fg_bg, fg_bg_style, fg_style, plain_style, spans_match, with_modifier, Color, Modifier, Style};
use crate::text::{pad_right_str, spaces, str_eq, string_from_str};

verus! {

/// What a breadcrumb interaction asks for.
#[derive(Debug, Clone, PartialEq, Eq)]
pub enum BreadcrumbAction {
    /// Navigate to the item with this id.
    Navigate(String),
    /// Show or hide the collapsed items.
    ExpandEllipsis,
}

/// One item of the path.
#[derive(Debug, Clone)]
pub struct BreadcrumbItem {
    pub id: String,
    pub label: String,
    pub icon: Option<String>,
    pub enabled: bool,
}

impl BreadcrumbItem {
    /// An enabled item without icon.
    pub fn new(id: &str, label: &str) -> (item: Self)
        ensures
            item.id@ == id@,
            item.label@ == label@,
            item.icon is None,
            item.enabled,
    {
        BreadcrumbItem {
            id: string_from_str(id),
            label: string_from_str(label),
            icon: None,
            enabled: true,
        }
    }

    /// The same item with an icon.
    pub fn icon(self, icon: &str) -> (item: Self)
        ensures
            item.id == self.id,
            item.label == self.label,
            item.icon matches Some(i) && i@ == icon@,
            item.enabled == self.enabled,
    {
        let mut item = self;
        item.icon = Some(string_from_str(icon));
        item
    }

    /// The same item, enabled or not.
    pub fn enabled(self, enabled: bool) -> (item: Self)
        ensures
            item.id == self.id,
            item.label == self.label,
            item.icon == self.icon,
            item.enabled == enabled,
    {
        let mut item = self;
        item.enabled = enabled;
        item
    }
}

/// State of a breadcrumb.
#[derive(Debug, Clone)]
pub struct BreadcrumbState {
    pub items: Vec<BreadcrumbItem>,
    pub selected_index: Option<usize>,
    pub focused: bool,
    pub enabled: bool,
    pub expanded: bool,
}

/// The first index whose item has id `id`.
pub open spec fn id_position(items: Seq<BreadcrumbItem>, id: Seq<char>, r: Option<usize>) -> bool {
    match r {
        Some(i) => i < items.len() && items[i as int].id@ == id && forall|j: int|
            0 <= j < i ==> (#[trigger] items[j]).id@ != id,
        None => forall|j: int| 0 <= j < items.len() ==> (#[trigger] items[j]).id@ != id,
    }
}

/// Index of the first item with id `id`.
pub fn find_id(items: &Vec<BreadcrumbItem>, id: &str) -> (r: Option<usize>)
    ensures
        id_position(items@, id@, r),
{
    let mut i: usize = 0;
    while i < items.len()
        invariant
            i <= items.len(),
            forall|j: int| 0 <= j < i ==> (#[trigger] items@[j]).id@ != id@,
        decreases items.len() - i,
    {
        if str_eq(items[i].id.as_str(), id) {
            return Some(i);
        }
        i = i + 1;
    }
    None
}

impl BreadcrumbState {
    /// A state over `items`: nothing selected, unfocused, enabled, collapsed.
    pub fn new(items: Vec<BreadcrumbItem>) -> (s: Self)
        ensures
            s.items == items,
            s.selected_index is None,
            !s.focused,
            s.enabled,
            !s.expanded,
    {
        BreadcrumbState { items, selected_index: None, focused: false, enabled: true, expanded: false }
    }

    /// A state without items.
    pub fn empty() -> (s: Self)
        ensures
            s.items@.len() == 0,
            s.selected_index is None,
            !s.focused,
            s.enabled,
            !s.expanded,
    {
        Self::new(Vec::new())
    }

    /// Selects the next item (the first when nothing is selected); stays at
    /// the last item.
    pub fn select_next(&mut self)
        ensures
            final(self).items == old(self).items,
            final(self).focused == old(self).focused,
            final(self).enabled == old(self).enabled,
            final(self).expanded == old(self).expanded,
            final(self).selected_index == (if old(self).items@.len() == 0 {
                old(self).selected_index
            } else {
                match old(self).selected_index {
                    Some(i) => if i + 1 < old(self).items@.len() {
                        Some((i + 1) as usize)
                    } else {
                        Some(i)
                    },
                    None => Some(0usize),
                }
            }),
    {
        if self.items.len() == 0 {
            return;
        }
        self.selected_index = Some(
            match self.selected_index {
                Some(idx) => if idx < self.items.len() - 1 {
                    idx + 1
                } else {
                    idx
                },
                None => 0,
            },
        );
    }

    /// Selects the previous item (the last when nothing is selected); stays
    /// at the first item.
    pub fn select_prev(&mut self)
        ensures
            final(self).items == old(self).items,
            final(self).focused == old(self).focused,
            final(self).enabled == old(self).enabled,
            final(self).expanded == old(self).expanded,
            final(self).selected_index == (if old(self).items@.len() == 0 {
                old(self).selected_index
            } else {
                match old(self).selected_index {
                    Some(i) => if i > 0 {
                        Some((i - 1) as usize)
                    } else {
                        Some(i)
                    },
                    None => Some((old(self).items@.len() - 1) as usize),
                }
            }),
    {
        if self.items.len() == 0 {
            return;
        }
        self.selected_index = Some(
            match self.selected_index {
                Some(idx) => if idx > 0 {
                    idx - 1
                } else {
                    idx
                },
                None => self.items.len() - 1,
            },
        );
    }

    /// Selects the item at `index` when it exists.
    pub fn select(&mut self, index: usize)
        ensures
            final(self).items == old(self).items,
            final(self).focused == old(self).focused,
            final(self).enabled == old(self).enabled,
            final(self).expanded == old(self).expanded,
            final(self).selected_index == (if index < old(self).items@.len() {
                Some(index)
            } else {
                old(self).selected_index
            }),
    {
        if index < self.items.len() {
            self.selected_index = Some(index);
        }
    }

    /// Selects the first item whose id is `id`; nothing changes when there
    /// is none.
    pub fn select_by_id(&mut self, id: &str)
        ensures
            final(self).items == old(self).items,
            final(self).focused == old(self).focused,
            final(self).enabled == old(self).enabled,
            final(self).expanded == old(self).expanded,
            (exists|i: int| 0 <= i < old(self).items@.len() && old(self).items@[i].id@ == id@) ==> (
            final(self).selected_index matches Some(k) && id_position(
                old(self).items@,
                id@,
                Some(k),
            )),
            (forall|i: int| 0 <= i < old(self).items@.len() ==> old(self).items@[i].id@ != id@)
                ==> final(self).selected_index == old(self).selected_index,
    {
        if let Some(idx) = find_id(&self.items, id) {
            self.selected_index = Some(idx);
        }
    }

    /// Selects the first item, if any.
    pub fn select_first(&mut self)
        ensures
            final(self).items == old(self).items,
            final(self).focused == old(self).focused,
            final(self).enabled == old(self).enabled,
            final(self).expanded == old(self).expanded,
            final(self).selected_index == (if old(self).items@.len() > 0 {
                Some(0usize)
            } else {
                old(self).selected_index
            }),
    {
        if self.items.len() > 0 {
            self.selected_index = Some(0);
        }
    }

    /// Selects the last item, if any.
    pub fn select_last(&mut self)
        ensures
            final(self).items == old(self).items,
            final(self).focused == old(self).focused,
            final(self).enabled == old(self).enabled,
            final(self).expanded == old(self).expanded,
            final(self).selected_index == (if old(self).items@.len() > 0 {
                Some((old(self).items@.len() - 1) as usize)
            } else {
                old(self).selected_index
            }),
    {
        if self.items.len() > 0 {
            self.selected_index = Some(self.items.len() - 1);
        }
    }

    /// Clears the selection.
    pub fn clear_selection(&mut self)
        ensures
            *final(self) == (BreadcrumbState { selected_index: None, ..*old(self) }),
    {
        self.selected_index = None;
    }

    /// Appends an item at the end of the path.
    pub fn push(&mut self, item: BreadcrumbItem)
        ensures
            final(self).items@ == old(self).items@.push(item),
            final(self).selected_index == old(self).selected_index,
            final(self).focused == old(self).focused,
            final(self).enabled == old(self).enabled,
            final(self).expanded == old(self).expanded,
    {
        self.items.push(item);
    }

    /// Removes and returns the last item. A selection past the new end moves
    /// to the new last item, or is cleared when no item is left.
    pub fn pop(&mut self) -> (r: Option<BreadcrumbItem>)
        ensures
            old(self).items@.len() == 0 ==> r is None && final(self).items@.len() == 0,
            old(self).items@.len() > 0 ==> r == Some(old(self).items@.last()) && final(self).items@ == old(self).items@.drop_last(),
            final(self).selected_index == (match old(self).selected_index {
                Some(i) => if i >= final(self).items@.len() && final(self).items@.len() > 0 {
                    Some((final(self).items@.len() - 1) as usize)
                } else if final(self).items@.len() == 0 {
                    None
                } else {
                    Some(i)
                },
                None => None,
            }),
            final(self).focused == old(self).focused,
            final(self).enabled == old(self).enabled,
            final(self).expanded == old(self).expanded,
    {
        let item = self.items.pop();
        if let Some(idx) = self.selected_index {
            if idx >= self.items.len() && self.items.len() > 0 {
                self.selected_index = Some(self.items.len() - 1);
            } else if self.items.len() == 0 {
                self.selected_index = None;
            }
        }
        item
    }

    /// Removes every item, clears the selection and collapses.
    pub fn clear(&mut self)
        ensures
            final(self).items@.len() == 0,
            final(self).selected_index is None,
            !final(self).expanded,
            final(self).focused == old(self).focused,
            final(self).enabled == old(self).enabled,
    {
        self.items.clear();
        self.selected_index = None;
        self.expanded = false;
    }

    /// Replaces the items; a selection past the new end moves to the new
    /// last item (or is cleared when there is none). Collapses.
    pub fn set_items(&mut self, items: Vec<BreadcrumbItem>)
        ensures
            final(self).items == items,
            final(self).selected_index == (match old(self).selected_index {
                Some(i) => if i >= items@.len() {
                    if items@.len() == 0 {
                        None
                    } else {
                        Some((items@.len() - 1) as usize)
                    }
                } else {
                    Some(i)
                },
                None => None,
            }),
            !final(self).expanded,
            final(self).focused == old(self).focused,
            final(self).enabled == old(self).enabled,
    {
        self.items = items;
        if let Some(idx) = self.selected_index {
            if idx >= self.items.len() {
                self.selected_index = if self.items.len() == 0 {
                    None
                } else {
                    Some(self.items.len() - 1)
                };
            }
        }
        self.expanded = false;
    }

    /// Shows or hides the collapsed items.
    pub fn toggle_expanded(&mut self)
        ensures
            *final(self) == (BreadcrumbState { expanded: !old(self).expanded, ..*old(self) }),
    {
        self.expanded = !self.expanded;
    }

    /// The selected item.
    pub fn selected_item(&self) -> (r: Option<&BreadcrumbItem>)
        ensures
            match self.selected_index {
                Some(i) => if i < self.items@.len() {
                    r == Some(&self.items@[i as int])
                } else {
                    r is None
                },
                None => r is None,
            },
    {
        match self.selected_index {
            Some(idx) => if idx < self.items.len() {
                Some(&self.items[idx])
            } else {
                None
            },
            None => None,
        }
    }

    /// The number of items.
    pub fn len(&self) -> (n: usize)
        ensures
            n == self.items@.len(),
    {
        self.items.len()
    }

    /// Whether there is no item.
    pub fn is_empty(&self) -> (b: bool)
        ensures
            b == (self.items@.len() == 0),
    {
        self.items.len() == 0
    }
}

impl Default for BreadcrumbState {
    fn default() -> (s: Self)
        ensures
            s.items@.len() == 0,
            s.selected_index is None,
            !s.focused,
            s.enabled,
            !s.expanded,
    {
        Self::new(Vec::new())
    }
}

/// Separator, ellipsis, collapsing and colors of a breadcrumb.
#[derive(Debug, Clone, Copy)]
pub struct BreadcrumbStyle {
    pub separator: &'static str,
    pub separator_style: Style,
    pub ellipsis: &'static str,
    pub ellipsis_style: Style,
    /// Paths longer than this are collapsed.
    pub collapse_threshold: usize,
    /// Items shown before the ellipsis.
    pub visible_start: usize,
    /// Items shown after the ellipsis.
    pub visible_end: usize,
    pub item_style: Style,
    pub focused_item_style: Style,
    pub selected_item_style: Style,
    pub hovered_item_style: Style,
    pub disabled_item_style: Style,
    pub last_item_style: Style,
    pub icon_style: Style,
    pub icon_separator: &'static str,
    /// Padding (left, right), in cells.
    pub padding: (u16, u16),
}

/// The default breadcrumb style: " > " between items, "..." for the
/// collapsed middle of paths longer than 4 items (1 item kept before it, 2
/// after), blue items, a bold white last item, and one cell of padding on
/// either side.
pub open spec fn is_default_breadcrumb_style(s: BreadcrumbStyle) -> bool {
    &&& s.separator@ == " > "@
    &&& s.separator_style == fg_style(Color::DarkGray)
    &&& s.ellipsis@ == "..."@
    &&& s.ellipsis_style == with_modifier(fg_style(Color::Cyan), Modifier { bits: 1 })
    &&& s.collapse_threshold == 4
    &&& s.visible_start == 1
    &&& s.visible_end == 2
    &&& s.item_style == fg_style(Color::Blue)
    &&& s.focused_item_style == with_modifier(fg_style(Color::Yellow), Modifier { bits: 1 })
    &&& s.selected_item_style == fg_bg_style(Color::Black, Color::Yellow)
    &&& s.hovered_item_style == with_modifier(fg_style(Color::Cyan), Modifier { bits: 8 })
    &&& s.disabled_item_style == fg_style(Color::DarkGray)
    &&& s.last_item_style == with_modifier(fg_style(Color::White), Modifier { bits: 1 })
    &&& s.icon_style == plain_style()
    &&& s.icon_separator@ == " "@
    &&& s.padding == (1u16, 1u16)
}

impl Default for BreadcrumbStyle {
    fn default() -> (s: Self)
        ensures
            is_default_breadcrumb_style(s),
    {
        BreadcrumbStyle {
            separator: " > ",
            separator_style: fg(Color::DarkGray),
            ellipsis: "...",
            ellipsis_style: fg(Color::Cyan).add_modifier(Modifier::bold()),
            collapse_threshold: 4,
            visible_start: 1,
            visible_end: 2,
            item_style: fg(Color::Blue),
            focused_item_style: fg(Color::Yellow).add_modifier(Modifier::bold()),
            selected_item_style: fg_bg(Color::Black, Color::Yellow),
            hovered_item_style: fg(Color::Cyan).add_modifier(Modifier::underlined()),
            disabled_item_style: fg(Color::DarkGray),
            last_item_style: fg(Color::White).add_modifier(Modifier::bold()),
            icon_style: Style::new(),
            icon_separator: " ",
            padding: (1, 1),
        }
    }
}

impl BreadcrumbStyle {
    /// Items separated by " / ".
    pub fn slash() -> (s: Self)
        ensures
            s.separator@ == " / "@,
            is_default_breadcrumb_style(BreadcrumbStyle { separator: " > ", ..s }),
    {
        let mut s = Self::default();
        s.separator = " / ";
        s
    }

    /// Items separated by " › ".
    pub fn chevron() -> (s: Self)
        ensures
            s.separator@ == " › "@,
            s.separator_style == fg_style(Color::Gray),
            is_default_breadcrumb_style(BreadcrumbStyle { separator: " > ", separator_style: fg_style(Color::DarkGray), ..s }),
    {
        let mut s = Self::default();
        s.separator = " › ";
        s.separator_style = fg(Color::Gray);
        s
    }

    /// Items separated by " → ".
    pub fn arrow() -> (s: Self)
        ensures
            s.separator@ == " → "@,
            s.separator_style == fg_style(Color::Gray),
            is_default_breadcrumb_style(BreadcrumbStyle { separator: " > ", separator_style: fg_style(Color::DarkGray), ..s }),
    {
        let mut s = Self::default();
        s.separator = " → ";
        s.separator_style = fg(Color::Gray);
        s
    }

    /// Subdued colors, " / " separators.
    pub fn minimal() -> (s: Self)
        ensures
            s.separator@ == " / "@,
            s.item_style == fg_style(Color::Gray),
            s.focused_item_style == fg_style(Color::White),
            s.selected_item_style == with_modifier(fg_style(Color::White), Modifier { bits: 1 }),
            s.last_item_style == fg_style(Color::White),
            s.ellipsis_style == fg_style(Color::Gray),
            is_default_breadcrumb_style(BreadcrumbStyle {
                separator: " > ",
                item_style: fg_style(Color::Blue),
                focused_item_style: with_modifier(fg_style(Color::Yellow), Modifier { bits: 1 }),
                selected_item_style: fg_bg_style(Color::Black, Color::Yellow),
                last_item_style: with_modifier(fg_style(Color::White), Modifier { bits: 1 }),
                ellipsis_style: with_modifier(fg_style(Color::Cyan), Modifier { bits: 1 }),
                ..s
            }),
    {
        let mut s = Self::default();
        s.separator = " / ";
        s.separator_style = fg(Color::DarkGray);
        s.item_style = fg(Color::Gray);
        s.focused_item_style = fg(Color::White);
        s.selected_item_style = fg(Color::White).add_modifier(Modifier::bold());
        s.last_item_style = fg(Color::White);
        s.ellipsis_style = fg(Color::Gray);
        s
    }

    /// Sets the separator.
    pub fn separator(self, sep: &'static str) -> (s: Self)
        ensures
            s == (BreadcrumbStyle { separator: sep, ..self }),
    {
        let mut s = self;
        s.separator = sep;
        s
    }

    /// Sets the separator's style.
    pub fn separator_style(self, style: Style) -> (s: Self)
        ensures
            s == (BreadcrumbStyle { separator_style: style, ..self }),
    {
        let mut s = self;
        s.separator_style = style;
        s
    }

    /// Sets the length above which the path is collapsed.
    pub fn collapse_threshold(self, threshold: usize) -> (s: Self)
        ensures
            s == (BreadcrumbStyle { collapse_threshold: threshold, ..self }),
    {
        let mut s = self;
        s.collapse_threshold = threshold;
        s
    }

    /// Sets how many items stay visible before and after the ellipsis.
    pub fn visible_ends(self, start: usize, end: usize) -> (s: Self)
        ensures
            s == (BreadcrumbStyle { visible_start: start, visible_end: end, ..self }),
    {
        let mut s = self;
        s.visible_start = start;
        s.visible_end = end;
        s
    }

    /// Sets the style of ordinary items.
    pub fn item_style(self, style: Style) -> (s: Self)
        ensures
            s == (BreadcrumbStyle { item_style: style, ..self }),
    {
        let mut s = self;
        s.item_style = style;
        s
    }

    /// Sets the style of the selected item while unfocused.
    pub fn focused_item_style(self, style: Style) -> (s: Self)
        ensures
            s == (BreadcrumbStyle { focused_item_style: style, ..self }),
    {
        let mut s = self;
        s.focused_item_style = style;
        s
    }

    /// Sets the style of the last item.
    pub fn last_item_style(self, style: Style) -> (s: Self)
        ensures
            s == (BreadcrumbStyle { last_item_style: style, ..self }),
    {
        let mut s = self;
        s.last_item_style = style;
        s
    }

    /// Sets the left and right padding.
    pub fn padding(self, left: u16, right: u16) -> (s: Self)
        ensures
            s == (BreadcrumbStyle { padding: (left, right), ..self }),
    {
        let mut s = self;
        s.padding = (left, right);
        s
    }
}

/// An element of the rendered path.
#[derive(Debug, Clone, Copy, PartialEq, Eq, Structural)]
pub enum VisibleElement {
    /// The item at this index.
    Item(usize),
    /// The ellipsis standing for the collapsed items.
    Ellipsis,
}

/// Items `lo..hi` as elements.
pub open spec fn item_range(lo: int, hi: int) -> Seq<VisibleElement> {
    Seq::new(if hi > lo { (hi - lo) as nat } else { 0 }, |k: int| VisibleElement::Item((lo + k) as usize))
}

/// A collapsed path shows its first `visible_start` items, the ellipsis,
/// then its last `visible_end` items (fewer where the path is shorter),
/// ending with the last item; an uncollapsed path shows every item in
/// order.
pub proof fn collapsed_path_keeps_both_ends(len: nat, threshold: usize, vstart: usize, vend: usize, expanded: bool)
    ensures
        ({
            let v = visible_spec(len, threshold, vstart, vend, expanded);
            let f: int = if vstart <= len { vstart as int } else { len as int };
            let e: int = if vend <= len { vend as int } else { len as int };
            if len <= threshold || expanded {
                &&& v.len() == len
                &&& forall|k: int| 0 <= k < len ==> v[k] == VisibleElement::Item(k as usize)
            } else {
                &&& v.len() == f + 1 + e
                &&& forall|k: int| 0 <= k < f ==> v[k] == VisibleElement::Item(k as usize)
                &&& v[f] == VisibleElement::Ellipsis
                &&& forall|k: int| f + 1 <= k < v.len() ==> #[trigger] v[k] == VisibleElement::Item((len - e + (k - f - 1)) as usize)
                &&& (e > 0 ==> v[v.len() - 1] == VisibleElement::Item((len - 1) as usize))
            }
        }),
{
    let v = visible_spec(len, threshold, vstart, vend, expanded);
    if !(len <= threshold || expanded) {
        let f: int = if vstart <= len { vstart as int } else { len as int };
        let e: int = if vend <= len { vend as int } else { len as int };
        let head = item_range(0, f);
        let tail = item_range(len - e, len as int);
        assert(v == head + seq![VisibleElement::Ellipsis] + tail);
        assert forall|k: int| f + 1 <= k < v.len() implies #[trigger] v[k] == VisibleElement::Item((len - e + (k - f - 1)) as usize) by {
            assert(v[k] == tail[k - f - 1]);
        }
        if e > 0 {
            assert(v[v.len() - 1] == tail[e - 1]);
        }
    }
}

/// The elements shown for `len` items: all of them when the path is short
/// or expanded; otherwise the first `visible_start`, an ellipsis and the
/// last `visible_end`.
pub open spec fn visible_spec(
    len: nat,
    threshold: usize,
    vstart: usize,
    vend: usize,
    expanded: bool,
) -> Seq<VisibleElement> {
    if len <= threshold || expanded {
        item_range(0, len as int)
    } else {
        let first = if vstart <= len {
            vstart as int
        } else {
            len as int
        };
        let start = if len >= vend {
            len - vend
        } else {
            0
        };
        item_range(0, first) + seq![VisibleElement::Ellipsis] + item_range(start, len as int)
    }
}

/// Appends the items `lo..hi` to `out`.
fn push_items(out: &mut Vec<VisibleElement>, lo: usize, hi: usize)
    ensures
        final(out)@ == old(out)@ + item_range(lo as int, hi as int),
{
    let mut i = lo;
    let ghost base = out@;
    while i < hi
        invariant
            i >= lo,
            i <= hi || i == lo,
            out@ == base + item_range(lo as int, i as int),
        decreases hi - i,
    {
        out.push(VisibleElement::Item(i));
        assert(out@ =~= base + item_range(lo as int, i + 1));
        i = i + 1;
    }
    assert(item_range(lo as int, i as int) =~= item_range(lo as int, hi as int));
}

/// The breadcrumb widget: a state and a style, with an optional hovered
/// item.
pub struct Breadcrumb<'a> {
    pub state: &'a BreadcrumbState,
    pub style: BreadcrumbStyle,
    pub hovered_index: Option<usize>,
}

/// Character count, truncated to `u16` as the widget does.
pub open spec fn w16(n: nat) -> u16 {
    n as u16
}

impl<'a> Breadcrumb<'a> {
    /// A breadcrumb over `state` with the default style.
    pub fn new(state: &'a BreadcrumbState) -> (b: Self)
        ensures
            b.state == state,
            is_default_breadcrumb_style(b.style),
            b.hovered_index is None,
    {
        Breadcrumb { state, style: BreadcrumbStyle::default(), hovered_index: None }
    }

    /// Sets the style.
    pub fn style(self, style: BreadcrumbStyle) -> (b: Self)
        ensures
            b.state == self.state,
            b.style == style,
            b.hovered_index == self.hovered_index,
    {
        Breadcrumb { state: self.state, style, hovered_index: self.hovered_index }
    }

    /// Sets the hovered item.
    pub fn hovered(self, index: Option<usize>) -> (b: Self)
        ensures
            b.state == self.state,
            b.style == self.style,
            b.hovered_index == index,
    {
        Breadcrumb { state: self.state, style: self.style, hovered_index: index }
    }

    /// The elements to show (see `visible_spec`).
    pub fn visible_elements(&self) -> (r: Vec<VisibleElement>)
        ensures
            r@ == visible_spec(
                self.state.items@.len(),
                self.style.collapse_threshold,
                self.style.visible_start,
                self.style.visible_end,
                self.state.expanded,
            ),
    {
        let len = self.state.items.len();
        let mut elements: Vec<VisibleElement> = Vec::new();
        if len <= self.style.collapse_threshold || self.state.expanded {
            push_items(&mut elements, 0, len);
            return elements;
        }
        let first = if self.style.visible_start <= len {
            self.style.visible_start
        } else {
            len
        };
        push_items(&mut elements, 0, first);
        elements.push(VisibleElement::Ellipsis);
        let start = len.saturating_sub(self.style.visible_end);
        push_items(&mut elements, start, len);
        elements
    }

    /// The style of the item at `idx` (see `item_style`).
    pub open spec fn item_style_spec(&self, idx: usize) -> Style {
        if !self.state.items@[idx as int].enabled {
            self.style.disabled_item_style
        } else if self.state.focused && self.state.selected_index == Some(idx) {
            self.style.selected_item_style
        } else if self.hovered_index == Some(idx) {
            self.style.hovered_item_style
        } else if self.state.selected_index == Some(idx) {
            self.style.focused_item_style
        } else if idx == self.state.items@.len() - 1 {
            self.style.last_item_style
        } else {
            self.style.item_style
        }
    }

    /// The style of the item at `idx`: disabled, then selected with focus,
    /// hovered, selected, last, ordinary.
    pub fn item_style(&self, idx: usize) -> (s: Style)
        requires
            idx < self.state.items@.len(),
        ensures
            s == self.item_style_spec(idx),
    {
        let item = &self.state.items[idx];
        let is_last = idx == self.state.items.len() - 1;
        let is_selected = match self.state.selected_index {
            Some(i) => i == idx,
            None => false,
        };
        let is_hovered = match self.hovered_index {
            Some(i) => i == idx,
            None => false,
        };
        let is_focused = self.state.focused && is_selected;
        if !item.enabled {
            self.style.disabled_item_style
        } else if is_focused {
            self.style.selected_item_style
        } else if is_hovered {
            self.style.hovered_item_style
        } else if is_selected {
            self.style.focused_item_style
        } else if is_last {
            self.style.last_item_style
        } else {
            self.style.item_style
        }
    }
}


/// The width one element adds to `calculate_width` (without separator).
pub open spec fn elem_cost(st: BreadcrumbState, sty: BreadcrumbStyle, e: VisibleElement) -> int {
    match e {
        VisibleElement::Item(idx) => if idx < st.items@.len() {
            let it = st.items@[idx as int];
            (match it.icon {
                Some(ic) => w16(ic@.len()) + w16(sty.icon_separator@.len()),
                None => 0,
            }) + w16(it.label@.len())
        } else {
            0
        },
        VisibleElement::Ellipsis => w16(sty.ellipsis@.len()) as int,
    }
}

/// The summed widths of `elems`, with a separator before every element but
/// the first.
pub open spec fn cost_sum(st: BreadcrumbState, sty: BreadcrumbStyle, elems: Seq<VisibleElement>) -> int
    decreases elems.len(),
{
    if elems.len() == 0 {
        0
    } else {
        cost_sum(st, sty, elems.drop_last()) + (if elems.len() > 1 {
            w16(sty.separator@.len()) as int
        } else {
            0
        }) + elem_cost(st, sty, elems.last())
    }
}

/// The width one element occupies when rendered: the character count of
/// its text (icon, icon separator and label), truncated to `u16`.
pub open spec fn render_width(st: BreadcrumbState, sty: BreadcrumbStyle, e: VisibleElement) -> u16 {
    match e {
        VisibleElement::Item(idx) => if idx < st.items@.len() {
            let it = st.items@[idx as int];
            match it.icon {
                Some(ic) => w16(ic@.len() + sty.icon_separator@.len() + it.label@.len()),
                None => w16(it.label@.len()),
            }
        } else {
            0
        },
        VisibleElement::Ellipsis => w16(sty.ellipsis@.len()),
    }
}

/// The column after rendering `elems` from column `x0`.
pub open spec fn render_end(st: BreadcrumbState, sty: BreadcrumbStyle, x0: int, elems: Seq<VisibleElement>) -> int
    decreases elems.len(),
{
    if elems.len() == 0 {
        x0
    } else {
        render_end(st, sty, x0, elems.drop_last()) + (if elems.len() > 1 {
            w16(sty.separator@.len()) as int
        } else {
            0
        }) + render_width(st, sty, elems.last())
    }
}

/// The click regions of `elems` rendered from column `x0` on row `y`, as
/// (area, id to navigate to, or `None` for the ellipsis). Elements of zero
/// width and disabled items get no region.
pub open spec fn regions_spec(
    st: BreadcrumbState,
    sty: BreadcrumbStyle,
    x0: int,
    y: u16,
    elems: Seq<VisibleElement>,
) -> Seq<(Rect, Option<Seq<char>>)>
    decreases elems.len(),
{
    if elems.len() == 0 {
        Seq::empty()
    } else {
        let prev = regions_spec(st, sty, x0, y, elems.drop_last());
        let start = render_end(st, sty, x0, elems.drop_last()) + (if elems.len() > 1 {
            w16(sty.separator@.len()) as int
        } else {
            0
        });
        let w = render_width(st, sty, elems.last());
        let area = Rect::new_spec(start as u16, y, w, 1);
        if w == 0 {
            prev
        } else {
            match elems.last() {
                VisibleElement::Item(idx) => if idx < st.items@.len() && st.items@[idx as int].enabled {
                    prev.push((area, Some(st.items@[idx as int].id@)))
                } else {
                    prev
                },
                VisibleElement::Ellipsis => prev.push((area, None)),
            }
        }
    }
}

/// The region holds the given area and action.
pub open spec fn region_is(r: ClickRegion<BreadcrumbAction>, e: (Rect, Option<Seq<char>>)) -> bool {
    &&& r.area == e.0
    &&& match e.1 {
        Some(id) => r.data matches BreadcrumbAction::Navigate(s) && s@ == id,
        None => r.data == BreadcrumbAction::ExpandEllipsis,
    }
}

proof fn lemma_cost_nonneg(st: BreadcrumbState, sty: BreadcrumbStyle, elems: Seq<VisibleElement>)
    ensures
        cost_sum(st, sty, elems) >= 0,
    decreases elems.len(),
{
    if elems.len() > 0 {
        lemma_cost_nonneg(st, sty, elems.drop_last());
    }
}

proof fn lemma_render_end_grows(st: BreadcrumbState, sty: BreadcrumbStyle, x0: int, elems: Seq<VisibleElement>, k: int)
    requires
        0 <= k <= elems.len(),
    ensures
        x0 <= render_end(st, sty, x0, elems.subrange(0, k)) <= render_end(st, sty, x0, elems),
    decreases elems.len() - k,
{
    if k < elems.len() {
        lemma_render_end_grows(st, sty, x0, elems.drop_last(), k);
        assert(elems.drop_last().subrange(0, k) =~= elems.subrange(0, k));
    } else {
        assert(elems.subrange(0, k) =~= elems);
        lemma_render_start(st, sty, x0, elems);
    }
}

proof fn lemma_render_start(st: BreadcrumbState, sty: BreadcrumbStyle, x0: int, elems: Seq<VisibleElement>)
    ensures
        x0 <= render_end(st, sty, x0, elems),
    decreases elems.len(),
{
    if elems.len() > 0 {
        lemma_render_start(st, sty, x0, elems.drop_last());
    }
}

impl<'a> Breadcrumb<'a> {
    /// The width of one element's text, truncated to `u16`.
    fn element_width(&self, e: VisibleElement) -> (w: u16)
        ensures
            w == render_width(*self.state, self.style, e),
    {
        match e {
            VisibleElement::Item(idx) => if idx < self.state.items.len() {
                let it = &self.state.items[idx];
                match &it.icon {
                    Some(ic) => {
                        let n = ic.as_str().unicode_len() as u128
                            + self.style.icon_separator.unicode_len() as u128
                            + it.label.as_str().unicode_len() as u128;
                        proof {
                            assert(n == ic@.len() + self.style.icon_separator@.len() + it.label@.len());
                        }
                        n as u16
                    },
                    None => it.label.as_str().unicode_len() as u16,
                }
            } else {
                0
            },
            VisibleElement::Ellipsis => self.style.ellipsis.unicode_len() as u16,
        }
    }

    /// The width the breadcrumb needs: the padding, the texts and the
    /// separators, each character count truncated to `u16`. The sum must fit
    /// in `u16`.
    pub fn calculate_width(&self) -> (w: u16)
        requires
            self.state.items@.len() > 0 ==> self.style.padding.0 + self.style.padding.1 + cost_sum(
                *self.state,
                self.style,
                visible_spec(
                    self.state.items@.len(),
                    self.style.collapse_threshold,
                    self.style.visible_start,
                    self.style.visible_end,
                    self.state.expanded,
                ),
            ) <= u16::MAX,
        ensures
            w == (if self.state.items@.len() == 0 {
                0
            } else {
                self.style.padding.0 + self.style.padding.1 + cost_sum(
                    *self.state,
                    self.style,
                    visible_spec(
                        self.state.items@.len(),
                        self.style.collapse_threshold,
                        self.style.visible_start,
                        self.style.visible_end,
                        self.state.expanded,
                    ),
                )
            }),
    {
        if self.state.items.len() == 0 {
            return 0;
        }
        let visible = self.visible_elements();
        let ghost total = cost_sum(*self.state, self.style, visible@);
        proof {
            lemma_cost_nonneg(*self.state, self.style, visible@);
            assert(visible@.subrange(0, 0) =~= Seq::<VisibleElement>::empty());
        }
        let mut width: u16 = self.style.padding.0 + self.style.padding.1;
        let mut i: usize = 0;
        while i < visible.len()
            invariant
                i <= visible.len(),
                total == cost_sum(*self.state, self.style, visible@),
                self.style.padding.0 + self.style.padding.1 + total <= u16::MAX,
                width == self.style.padding.0 + self.style.padding.1 + cost_sum(
                    *self.state,
                    self.style,
                    visible@.subrange(0, i as int),
                ),
            decreases visible.len() - i,
        {
            proof {
                assert(visible@.subrange(0, i + 1).drop_last() =~= visible@.subrange(0, i as int));
                assert(visible@.subrange(0, i + 1).last() == visible@[i as int]);
                lemma_cost_prefix(*self.state, self.style, visible@, i + 1);
            }
            if i > 0 {
                width = width + self.style.separator.unicode_len() as u16;
            }
            match visible[i] {
                VisibleElement::Item(idx) => {
                    if idx < self.state.items.len() {
                        let item = &self.state.items[idx];
                        if let Some(icon) = &item.icon {
                            width = width + icon.as_str().unicode_len() as u16;
                            width = width + self.style.icon_separator.unicode_len() as u16;
                        }
                        width = width + item.label.as_str().unicode_len() as u16;
                    }
                },
                VisibleElement::Ellipsis => {
                    width = width + self.style.ellipsis.unicode_len() as u16;
                },
            }
            i = i + 1;
        }
        assert(visible@.subrange(0, visible@.len() as int) =~= visible@);
        width
    }

    /// The click regions that rendering into `area` produces: one per
    /// element of non-zero width laid out from `area.x + padding.0`, each
    /// one row high, except disabled items. The rightmost column reached
    /// must fit in `u16`.
    pub fn click_regions(&self, area: Rect) -> (r: Vec<ClickRegion<BreadcrumbAction>>)
        requires
            render_end(
                *self.state,
                self.style,
                area.x + self.style.padding.0,
                visible_spec(
                    self.state.items@.len(),
                    self.style.collapse_threshold,
                    self.style.visible_start,
                    self.style.visible_end,
                    self.state.expanded,
                ),
            ) <= u16::MAX,
        ensures
            ({
                let exp = if self.state.items@.len() == 0 {
                    Seq::empty()
                } else {
                    regions_spec(
                        *self.state,
                        self.style,
                        area.x + self.style.padding.0,
                        area.y,
                        visible_spec(
                            self.state.items@.len(),
                            self.style.collapse_threshold,
                            self.style.visible_start,
                            self.style.visible_end,
                            self.state.expanded,
                        ),
                    )
                };
                &&& r@.len() == exp.len()
                &&& forall|k: int| 0 <= k < r@.len() ==> region_is(#[trigger] r@[k], exp[k])
            }),
    {
        let mut regions: Vec<ClickRegion<BreadcrumbAction>> = Vec::new();
        if self.state.items.len() == 0 {
            return regions;
        }
        let visible = self.visible_elements();
        let ghost x0 = area.x + self.style.padding.0;
        proof {
            lemma_render_start(*self.state, self.style, x0, visible@);
        }
        let mut x: u16 = area.x + self.style.padding.0;
        let mut i: usize = 0;
        while i < visible.len()
            invariant
                i <= visible.len(),
                x0 == area.x + self.style.padding.0,
                render_end(*self.state, self.style, x0, visible@) <= u16::MAX,
                x == render_end(*self.state, self.style, x0, visible@.subrange(0, i as int)),
                ({
                    let exp = regions_spec(*self.state, self.style, x0, area.y, visible@.subrange(0, i as int));
                    &&& regions@.len() == exp.len()
                    &&& forall|k: int| 0 <= k < regions@.len() ==> region_is(#[trigger] regions@[k], exp[k])
                }),
            decreases visible.len() - i,
        {
            let ghost pre = visible@.subrange(0, i as int);
            proof {
                assert(visible@.subrange(0, i + 1).drop_last() =~= pre);
                assert(visible@.subrange(0, i + 1).last() == visible@[i as int]);
                lemma_render_end_grows(*self.state, self.style, x0, visible@, i + 1);
            }
            if i > 0 {
                x = x + self.style.separator.unicode_len() as u16;
            }
            let w = self.element_width(visible[i]);
            let start = x;
            x = x + w;
            if w != 0 {
                match visible[i] {
                    VisibleElement::Item(idx) => {
                        if idx < self.state.items.len() && self.state.items[idx].enabled {
                            let id = self.state.items[idx].id.clone();
                            regions.push(ClickRegion::new(Rect::new(start, area.y, w, 1), BreadcrumbAction::Navigate(id)));
                        }
                    },
                    VisibleElement::Ellipsis => {
                        regions.push(ClickRegion::new(Rect::new(start, area.y, w, 1), BreadcrumbAction::ExpandEllipsis));
                    },
                }
            }
            i = i + 1;
        }
        assert(visible@.subrange(0, visible@.len() as int) =~= visible@);
        regions
    }
}

proof fn lemma_cost_prefix(st: BreadcrumbState, sty: BreadcrumbStyle, elems: Seq<VisibleElement>, k: int)
    requires
        0 <= k <= elems.len(),
    ensures
        cost_sum(st, sty, elems.subrange(0, k)) <= cost_sum(st, sty, elems),
    decreases elems.len() - k,
{
    if k < elems.len() {
        lemma_cost_prefix(st, sty, elems.drop_last(), k);
        assert(elems.drop_last().subrange(0, k) =~= elems.subrange(0, k));
        lemma_cost_nonneg(st, sty, elems.drop_last());
    } else {
        assert(elems.subrange(0, k) =~= elems);
    }
}


/// The text shown for an item: icon, icon separator, label.
pub open spec fn item_text_spec(it: BreadcrumbItem, icon_sep: Seq<char>) -> Seq<char> {
    match it.icon {
        Some(ic) => ic@ + icon_sep + it.label@,
        None => it.label@,
    }
}

/// The left padding drawn before the path: that many spaces, unstyled.
pub open spec fn lead_pad(sty: BreadcrumbStyle) -> Seq<(Seq<char>, Style)> {
    if sty.padding.0 > 0 { seq![(spaces(sty.padding.0 as nat), plain_style())] } else { Seq::empty() }
}

/// The styled pieces of text of the rendered path, as (text, style):
/// separators between elements, item texts, the ellipsis.
pub open spec fn spans_spec(b: Breadcrumb, elems: Seq<VisibleElement>) -> Seq<(Seq<char>, Style)>
    decreases elems.len(),
{
    if elems.len() == 0 {
        Seq::empty()
    } else {
        let prev = spans_spec(b, elems.drop_last());
        let with_sep = if elems.len() > 1 {
            prev.push((b.style.separator@, b.style.separator_style))
        } else {
            prev
        };
        match elems.last() {
            VisibleElement::Item(idx) => if idx < b.state.items@.len() {
                with_sep.push((item_text_spec(b.state.items@[idx as int], b.style.icon_separator@), b.item_style_spec(idx)))
            } else {
                with_sep
            },
            VisibleElement::Ellipsis => with_sep.push((b.style.ellipsis@, b.style.ellipsis_style)),
        }
    }
}

impl<'a> Breadcrumb<'a> {
    /// The text shown for the item at `idx`.
    pub fn item_text(&self, idx: usize) -> (t: String)
        requires
            idx < self.state.items@.len(),
        ensures
            t@ == item_text_spec(self.state.items@[idx as int], self.style.icon_separator@),
    {
        let item = &self.state.items[idx];
        let mut t = String::new();
        if let Some(icon) = &item.icon {
            t.append(icon.as_str());
            t.append(self.style.icon_separator);
        }
        t.append(item.label.as_str());
        t
    }

    /// The styled pieces of text that rendering draws, left to right: the
    /// left padding as spaces, then the path, so that each element's text
    /// lies in its click region (nothing when there is no item).
    pub fn spans(&self) -> (r: Vec<(String, Style)>)
        ensures
            spans_match(r@, if self.state.items@.len() == 0 {
                Seq::empty()
            } else {
                lead_pad(self.style) + spans_spec(*self, visible_spec(
                    self.state.items@.len(),
                    self.style.collapse_threshold,
                    self.style.visible_start,
                    self.style.visible_end,
                    self.state.expanded,
                ))
            }),
    {
        let mut out: Vec<(String, Style)> = Vec::new();
        if self.state.items.len() == 0 {
            return out;
        }
        let lead = Ghost(lead_pad(self.style));
        if self.style.padding.0 > 0 {
            let pad = pad_right_str("", self.style.padding.0 as usize);
            proof {
                reveal_strlit("");
                assert(pad@ =~= spaces(self.style.padding.0 as nat));
            }
            out.push((pad, Style::new()));
        }
        let visible = self.visible_elements();
        let mut i: usize = 0;
        proof {
            assert(lead@ + spans_spec(*self, visible@.subrange(0, 0)) =~= lead@);
        }
        while i < visible.len()
            invariant
                i <= visible.len(),
                lead@ == lead_pad(self.style),
                spans_match(out@, lead@ + spans_spec(*self, visible@.subrange(0, i as int))),
            decreases visible.len() - i,
        {
            proof {
                assert(visible@.subrange(0, i + 1).drop_last() =~= visible@.subrange(0, i as int));
                assert(visible@.subrange(0, i + 1).last() == visible@[i as int]);
            }
            let ghost before = spans_spec(*self, visible@.subrange(0, i as int));
            if i > 0 {
                out.push((String::from_str(self.style.separator), self.style.separator_style));
                proof {
                    assert(lead@ + before.push((self.style.separator@, self.style.separator_style))
                        =~= (lead@ + before).push((self.style.separator@, self.style.separator_style)));
                }
            }
            let ghost with_sep = if i > 0 { before.push((self.style.separator@, self.style.separator_style)) } else { before };
            match visible[i] {
                VisibleElement::Item(idx) => {
                    if idx < self.state.items.len() {
                        let t = self.item_text(idx);
                        let st = self.item_style(idx);
                        out.push((t, st));
                        proof {
                            assert(lead@ + with_sep.push((t@, st)) =~= (lead@ + with_sep).push((t@, st)));
                        }
                    }
                },
                VisibleElement::Ellipsis => {
                    out.push((String::from_str(self.style.ellipsis), self.style.ellipsis_style));
                    proof {
                        assert(lead@ + with_sep.push((self.style.ellipsis@, self.style.ellipsis_style))
                            =~= (lead@ + with_sep).push((self.style.ellipsis@, self.style.ellipsis_style)));
                    }
                },
            }
            i = i + 1;
        }
        assert(visible@.subrange(0, visible@.len() as int) =~= visible@);
        out
    }
}

/// The key handled by `handle_breadcrumb_key`, as a state change and result.
pub open spec fn breadcrumb_key_spec(
    key: KeyEvent,
    s: BreadcrumbState,
    t: BreadcrumbState,
    r: Option<BreadcrumbAction>,
) -> bool {
    if !s.enabled || s.items@.len() == 0 {
        r is None && t == s
    } else {
        match key.code {
            KeyCode::Left | KeyCode::Char('h') => r is None && t == BreadcrumbState {
                selected_index: prev_selection(s),
                ..s
            },
            KeyCode::Right | KeyCode::Char('l') => r is None && t == BreadcrumbState {
                selected_index: next_selection(s),
                ..s
            },
            KeyCode::Home => r is None && t == BreadcrumbState { selected_index: Some(0usize), ..s },
            KeyCode::End => r is None && t == BreadcrumbState {
                selected_index: Some((s.items@.len() - 1) as usize),
                ..s
            },
            KeyCode::Enter | KeyCode::Char(' ') => t == s && match s.selected_index {
                Some(i) => if i < s.items@.len() && s.items@[i as int].enabled {
                    r matches Some(BreadcrumbAction::Navigate(id)) && id@ == s.items@[i as int].id@
                } else {
                    r is None
                },
                None => r is None,
            },
            KeyCode::Char('e') => r == Some(BreadcrumbAction::ExpandEllipsis) && t
                == BreadcrumbState { expanded: !s.expanded, ..s },
            _ => r is None && t == s,
        }
    }
}

/// The selection after `select_next` on a non-empty path.
pub open spec fn next_selection(s: BreadcrumbState) -> Option<usize> {
    match s.selected_index {
        Some(i) => if i + 1 < s.items@.len() {
            Some((i + 1) as usize)
        } else {
            Some(i)
        },
        None => Some(0usize),
    }
}

/// The selection after `select_prev` on a non-empty path.
pub open spec fn prev_selection(s: BreadcrumbState) -> Option<usize> {
    match s.selected_index {
        Some(i) => if i > 0 {
            Some((i - 1) as usize)
        } else {
            Some(i)
        },
        None => Some((s.items@.len() - 1) as usize),
    }
}

/// Keyboard handling: Left/h and Right/l move the selection, Home/End
/// select the first and last item, Enter/Space navigate to the selected
/// enabled item, e shows or hides the collapsed items. Nothing happens
/// while the breadcrumb is disabled or empty.
pub fn handle_breadcrumb_key(key: &KeyEvent, state: &mut BreadcrumbState) -> (r: Option<BreadcrumbAction>)
    ensures
        breadcrumb_key_spec(*key, *old(state), *final(state), r),
{
    if !state.enabled || state.items.len() == 0 {
        return None;
    }
    match key.code {
        KeyCode::Left | KeyCode::Char('h') => {
            state.select_prev();
            None
        },
        KeyCode::Right | KeyCode::Char('l') => {
            state.select_next();
            None
        },
        KeyCode::Home => {
            state.select_first();
            None
        },
        KeyCode::End => {
            state.select_last();
            None
        },
        KeyCode::Enter | KeyCode::Char(' ') => {
            if let Some(item) = state.selected_item() {
                if item.enabled {
                    Some(BreadcrumbAction::Navigate(item.id.clone()))
                } else {
                    None
                }
            } else {
                None
            }
        },
        KeyCode::Char('e') => {
            state.toggle_expanded();
            Some(BreadcrumbAction::ExpandEllipsis)
        },
        _ => None,
    }
}

/// Mouse handling: a left click on a region navigates to its item (and
/// selects the first item with that id) or shows / hides the collapsed
/// items. The first region containing the click wins. Nothing happens
/// while the breadcrumb is disabled.
pub fn handle_breadcrumb_mouse(
    mouse: &MouseEvent,
    state: &mut BreadcrumbState,
    regions: &[ClickRegion<BreadcrumbAction>],
) -> (r: Option<BreadcrumbAction>)
    requires
        regions_fit(regions@),
    ensures
        final(state).items == old(state).items,
        final(state).focused == old(state).focused,
        final(state).enabled == old(state).enabled,
        ({
            let hit = choose|i: usize| #[trigger] crate::click::first_hit(regions@, mouse.column, mouse.row, Some(i));
            if old(state).enabled && mouse.kind == MouseEventKind::Down(MouseButton::Left)
                && !crate::click::first_hit(regions@, mouse.column, mouse.row, None) {
                &&& crate::click::first_hit(regions@, mouse.column, mouse.row, Some(hit))
                &&& match regions@[hit as int].data {
                    BreadcrumbAction::Navigate(id) => {
                        &&& r matches Some(BreadcrumbAction::Navigate(x)) && x@ == id@
                        &&& final(state).expanded == old(state).expanded
                        &&& (exists|j: int| 0 <= j < old(state).items@.len() && old(state).items@[j].id@ == id@) ==> (
                            final(state).selected_index matches Some(k) && id_position(old(state).items@, id@, Some(k)))
                        &&& (forall|j: int| 0 <= j < old(state).items@.len() ==> old(state).items@[j].id@ != id@)
                            ==> final(state).selected_index == old(state).selected_index
                    },
                    BreadcrumbAction::ExpandEllipsis => {
                        &&& r == Some(BreadcrumbAction::ExpandEllipsis)
                        &&& final(state).expanded == !old(state).expanded
                        &&& final(state).selected_index == old(state).selected_index
                    },
                }
            } else {
                r is None && *final(state) == *old(state)
            }
        }),
{
    if !state.enabled {
        return None;
    }
    if let MouseEventKind::Down(MouseButton::Left) = mouse.kind {
        match crate::click::find_hit(regions, mouse.column, mouse.row) {
            Some(i) => {
                proof {
                    let hit = choose|h: usize| #[trigger] crate::click::first_hit(regions@, mouse.column, mouse.row, Some(h));
                    lemma_first_hit_unique(regions@, mouse.column, mouse.row, i, hit);
                }
                match &regions[i].data {
                    BreadcrumbAction::Navigate(id) => {
                        state.select_by_id(id.as_str());
                        return Some(BreadcrumbAction::Navigate(id.clone()));
                    },
                    BreadcrumbAction::ExpandEllipsis => {
                        state.toggle_expanded();
                        return Some(BreadcrumbAction::ExpandEllipsis);
                    },
                }
            },
            None => {
                return None;
            },
        }
    }
    None
}

proof fn lemma_first_hit_unique<T>(s: Seq<ClickRegion<T>>, col: u16, row: u16, a: usize, b: usize)
    requires
        crate::click::first_hit(s, col, row, Some(a)),
        crate::click::first_hit(s, col, row, Some(b)),
    ensures
        a == b,
{
    if a < b {
        assert(rect_contains(s[a as int].area, col, row));
    } else if b < a {
        assert(rect_contains(s[b as int].area, col, row));
    }
}

/// Whether region `i` is the first region containing the cell that
/// navigates to an id.
pub open spec fn first_nav_hit(regions: Seq<ClickRegion<BreadcrumbAction>>, col: u16, row: u16, i: int) -> bool {
    &&& 0 <= i < regions.len()
    &&& rect_contains(regions[i].area, col, row)
    &&& regions[i].data is Navigate
    &&& forall|j: int| 0 <= j < i && rect_contains(#[trigger] regions[j].area, col, row)
        ==> regions[j].data is ExpandEllipsis
}

/// The id a `Navigate` action leads to.
pub open spec fn nav_id(a: BreadcrumbAction) -> Seq<char> {
    match a {
        BreadcrumbAction::Navigate(id) => id@,
        BreadcrumbAction::ExpandEllipsis => Seq::empty(),
    }
}

proof fn lemma_first_nav_hit_unique(s: Seq<ClickRegion<BreadcrumbAction>>, col: u16, row: u16, a: int, b: int)
    requires
        first_nav_hit(s, col, row, a),
        first_nav_hit(s, col, row, b),
    ensures
        a == b,
{
    if a < b {
        assert(rect_contains(s[a].area, col, row));
    } else if b < a {
        assert(rect_contains(s[b].area, col, row));
    }
}

/// The index of the item under the cell: for the first region containing
/// it that navigates to an id, the first item with that id. Ellipsis
/// regions are skipped.
pub fn get_hovered_index(
    col: u16,
    row: u16,
    regions: &[ClickRegion<BreadcrumbAction>],
    state: &BreadcrumbState,
) -> (r: Option<usize>)
    requires
        regions_fit(regions@),
    ensures
        (exists|i: int| first_nav_hit(regions@, col, row, i)) ==> id_position(
            state.items@,
            nav_id(regions@[choose|i: int| first_nav_hit(regions@, col, row, i)].data),
            r,
        ),
        !(exists|i: int| first_nav_hit(regions@, col, row, i)) ==> r is None,
{
    let mut i: usize = 0;
    while i < regions.len()
        invariant
            i <= regions.len(),
            regions_fit(regions@),
            forall|j: int| 0 <= j < i && rect_contains(#[trigger] regions@[j].area, col, row)
                ==> regions@[j].data is ExpandEllipsis,
        decreases regions.len() - i,
    {
        if regions[i].contains(col, row) {
            if let BreadcrumbAction::Navigate(id) = &regions[i].data {
                let r = find_id(&state.items, id.as_str());
                proof {
                    assert(first_nav_hit(regions@, col, row, i as int));
                    let c = choose|k: int| first_nav_hit(regions@, col, row, k);
                    lemma_first_nav_hit_unique(regions@, col, row, i as int, c);
                }
                return r;
            }
        }
        i = i + 1;
    }
    None
}

} // verus!
