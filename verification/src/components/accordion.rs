//! Accordion: collapsible sections, with one or many expanded at a time.
use vstd::prelude::*;
use crate::click::rect_contains;
use crate::event::{KeyCode, KeyEvent, MouseButton, MouseEvent, MouseEventKind};
use crate::geometry::{sat_sub16, Rect};
use crate::strset::{contains_text, insert_text, no_duplicate_texts, remove_text, text_set};
use crate::style::{fg, fg_style, with_modifier, Color, Modifier, Style};

verus! {

/// How many sections may be expanded at once.
#[derive(Debug, Clone, Copy, PartialEq, Eq, Structural, Default)]
pub enum AccordionMode {
    /// At most one section is expanded.
    Single,
    /// Any number of sections may be expanded.
    #[default]
    Multiple,
}

/// State of an accordion: the expanded section ids, the focused section and
/// the scroll offset.
#[derive(Debug, Clone)]
pub struct AccordionState {
    /// Ids of the expanded sections (no id twice).
    pub expanded: Vec<String>,
    /// Index of the focused section.
    pub focused_index: usize,
    /// Number of sections.
    pub total_items: usize,
    /// Expansion mode.
    pub mode: AccordionMode,
    /// Scroll offset, in rows.
    pub scroll: u16,
}

impl AccordionState {
    /// The ids of the expanded sections.
    pub open spec fn expanded_set(&self) -> Set<Seq<char>> {
        text_set(self.expanded@)
    }

    /// The set of expanded ids after expanding `id` in `mode`.
    pub open spec fn expand_spec(
        mode: AccordionMode,
        set: Set<Seq<char>>,
        id: Seq<char>,
    ) -> Set<Seq<char>> {
        match mode {
            AccordionMode::Single => Set::empty().insert(id),
            AccordionMode::Multiple => set.insert(id),
        }
    }

    /// A state for `total_items` sections, all collapsed, in multiple mode.
    pub fn new(total_items: usize) -> (s: Self)
        ensures
            s.expanded@.len() == 0,
            s.focused_index == 0,
            s.total_items == total_items,
            s.mode == AccordionMode::Multiple,
            s.scroll == 0,
    {
        AccordionState {
            expanded: Vec::new(),
            focused_index: 0,
            total_items,
            mode: AccordionMode::Multiple,
            scroll: 0,
        }
    }

    /// The same state with the given mode.
    pub fn with_mode(self, mode: AccordionMode) -> (s: Self)
        ensures
            s == (AccordionState { mode, ..self }),
    {
        let mut s = self;
        s.mode = mode;
        s
    }

    /// Sets the expanded sections: all of `ids` in multiple mode; only the
    /// last of them in single mode (nothing changes when `ids` is empty).
    pub fn with_expanded(self, ids: Vec<String>) -> (s: Self)
        requires
            no_duplicate_texts(self.expanded@),
        ensures
            s.focused_index == self.focused_index,
            s.total_items == self.total_items,
            s.mode == self.mode,
            s.scroll == self.scroll,
            no_duplicate_texts(s.expanded@),
            s.expanded_set() == (match self.mode {
                AccordionMode::Multiple => text_set(ids@),
                AccordionMode::Single => if ids@.len() == 0 {
                    self.expanded_set()
                } else {
                    Set::empty().insert(ids@.last()@)
                },
            }),
    {
        let mut s = self;
        match s.mode {
            AccordionMode::Multiple => {
                let mut set: Vec<String> = Vec::new();
                let mut i: usize = 0;
                while i < ids.len()
                    invariant
                        i <= ids.len(),
                        no_duplicate_texts(set@),
                        text_set(set@) == text_set(ids@.subrange(0, i as int)),
                    decreases ids.len() - i,
                {
                    insert_text(&mut set, ids[i].as_str());
                    proof {
                        assert(text_set(ids@.subrange(0, i + 1)) =~= text_set(
                            ids@.subrange(0, i as int),
                        ).insert(ids@[i as int]@)) by {
                            let a = ids@.subrange(0, i + 1);
                            let b = ids@.subrange(0, i as int);
                            assert forall|t: Seq<char>| text_set(a).contains(t) implies text_set(
                                b,
                            ).insert(ids@[i as int]@).contains(t) by {
                                let k = choose|k: int| 0 <= k < a.len() && a[k]@ == t;
                                if k < i {
                                    assert(b[k]@ == t);
                                }
                            }
                            assert forall|t: Seq<char>|
                                text_set(b).insert(ids@[i as int]@).contains(t) implies text_set(
                                a,
                            ).contains(t) by {
                                if t == ids@[i as int]@ {
                                    assert(a[i as int]@ == t);
                                } else {
                                    let k = choose|k: int| 0 <= k < b.len() && b[k]@ == t;
                                    assert(a[k]@ == t);
                                }
                            }
                        }
                    }
                    i = i + 1;
                }
                assert(ids@.subrange(0, ids@.len() as int) =~= ids@);
                s.expanded = set;
            },
            AccordionMode::Single => {
                if ids.len() > 0 {
                    let mut set: Vec<String> = Vec::new();
                    insert_text(&mut set, ids[ids.len() - 1].as_str());
                    assert(text_set(Seq::<String>::empty()) =~= Set::<Seq<char>>::empty());
                    s.expanded = set;
                }
            },
        }
        s
    }

    /// Expands `id` when it is collapsed (collapsing every other section in
    /// single mode); collapses it when it is expanded.
    pub fn toggle(&mut self, id: &str)
        requires
            no_duplicate_texts(old(self).expanded@),
        ensures
            no_duplicate_texts(final(self).expanded@),
            final(self).expanded_set() == (if old(self).expanded_set().contains(id@) {
                old(self).expanded_set().remove(id@)
            } else {
                Self::expand_spec(old(self).mode, old(self).expanded_set(), id@)
            }),
            final(self).focused_index == old(self).focused_index,
            final(self).total_items == old(self).total_items,
            final(self).mode == old(self).mode,
            final(self).scroll == old(self).scroll,
    {
        if contains_text(&self.expanded, id) {
            remove_text(&mut self.expanded, id);
        } else {
            self.expand(id);
        }
    }

    /// Expands `id`; in single mode every other section collapses.
    pub fn expand(&mut self, id: &str)
        requires
            no_duplicate_texts(old(self).expanded@),
        ensures
            no_duplicate_texts(final(self).expanded@),
            final(self).expanded_set() == Self::expand_spec(
                old(self).mode,
                old(self).expanded_set(),
                id@,
            ),
            final(self).focused_index == old(self).focused_index,
            final(self).total_items == old(self).total_items,
            final(self).mode == old(self).mode,
            final(self).scroll == old(self).scroll,
    {
        match self.mode {
            AccordionMode::Single => {
                self.expanded.clear();
                insert_text(&mut self.expanded, id);
                assert(text_set(Seq::<String>::empty()) =~= Set::<Seq<char>>::empty());
            },
            AccordionMode::Multiple => {
                insert_text(&mut self.expanded, id);
            },
        }
    }

    /// Collapses `id`.
    pub fn collapse(&mut self, id: &str)
        requires
            no_duplicate_texts(old(self).expanded@),
        ensures
            no_duplicate_texts(final(self).expanded@),
            final(self).expanded_set() == old(self).expanded_set().remove(id@),
            final(self).focused_index == old(self).focused_index,
            final(self).total_items == old(self).total_items,
            final(self).mode == old(self).mode,
            final(self).scroll == old(self).scroll,
    {
        remove_text(&mut self.expanded, id);
    }

    /// Whether `id` is expanded.
    pub fn is_expanded(&self, id: &str) -> (b: bool)
        ensures
            b == self.expanded_set().contains(id@),
    {
        contains_text(&self.expanded, id)
    }

    /// Expands every id of `ids` in multiple mode; in single mode only the
    /// last one is expanded (nothing changes when `ids` is empty).
    pub fn expand_all(&mut self, ids: Vec<String>)
        requires
            no_duplicate_texts(old(self).expanded@),
        ensures
            no_duplicate_texts(final(self).expanded@),
            final(self).expanded_set() == (match old(self).mode {
                AccordionMode::Multiple => old(self).expanded_set().union(text_set(ids@)),
                AccordionMode::Single => if ids@.len() == 0 {
                    old(self).expanded_set()
                } else {
                    Set::empty().insert(ids@.last()@)
                },
            }),
            final(self).focused_index == old(self).focused_index,
            final(self).total_items == old(self).total_items,
            final(self).mode == old(self).mode,
            final(self).scroll == old(self).scroll,
    {
        match self.mode {
            AccordionMode::Single => {
                if ids.len() > 0 {
                    self.expanded.clear();
                    insert_text(&mut self.expanded, ids[ids.len() - 1].as_str());
                    assert(text_set(Seq::<String>::empty()) =~= Set::<Seq<char>>::empty());
                }
            },
            AccordionMode::Multiple => {
                let ghost start = text_set(self.expanded@);
                let mut i: usize = 0;
                while i < ids.len()
                    invariant
                        i <= ids.len(),
                        no_duplicate_texts(self.expanded@),
                        text_set(self.expanded@) == start.union(
                            text_set(ids@.subrange(0, i as int)),
                        ),
                        self.focused_index == old(self).focused_index,
                        self.total_items == old(self).total_items,
                        self.mode == old(self).mode,
                        self.scroll == old(self).scroll,
                    decreases ids.len() - i,
                {
                    insert_text(&mut self.expanded, ids[i].as_str());
                    proof {
                        let a = ids@.subrange(0, i + 1);
                        let b = ids@.subrange(0, i as int);
                        assert(text_set(a) =~= text_set(b).insert(ids@[i as int]@)) by {
                            assert forall|t: Seq<char>| text_set(a).contains(t) implies text_set(
                                b,
                            ).insert(ids@[i as int]@).contains(t) by {
                                let k = choose|k: int| 0 <= k < a.len() && a[k]@ == t;
                                if k < i {
                                    assert(b[k]@ == t);
                                }
                            }
                            assert forall|t: Seq<char>|
                                text_set(b).insert(ids@[i as int]@).contains(t) implies text_set(
                                a,
                            ).contains(t) by {
                                if t == ids@[i as int]@ {
                                    assert(a[i as int]@ == t);
                                } else {
                                    let k = choose|k: int| 0 <= k < b.len() && b[k]@ == t;
                                    assert(a[k]@ == t);
                                }
                            }
                        }
                        assert(text_set(self.expanded@) =~= start.union(text_set(a)));
                    }
                    i = i + 1;
                }
                assert(ids@.subrange(0, ids@.len() as int) =~= ids@);
            },
        }
    }

    /// Collapses every section.
    pub fn collapse_all(&mut self)
        ensures
            final(self).expanded@.len() == 0,
            final(self).focused_index == old(self).focused_index,
            final(self).total_items == old(self).total_items,
            final(self).mode == old(self).mode,
            final(self).scroll == old(self).scroll,
    {
        self.expanded.clear();
    }

    /// Focuses the next section, if there is one.
    pub fn focus_next(&mut self)
        ensures
            final(self).focused_index == (if old(self).focused_index + 1 < old(self).total_items {
                old(self).focused_index + 1
            } else {
                old(self).focused_index as int
            }),
            final(self).expanded == old(self).expanded,
            final(self).total_items == old(self).total_items,
            final(self).mode == old(self).mode,
            final(self).scroll == old(self).scroll,
    {
        if self.focused_index < self.total_items && self.focused_index + 1 < self.total_items {
            self.focused_index += 1;
        }
    }

    /// Focuses the previous section, if there is one.
    pub fn focus_prev(&mut self)
        ensures
            final(self).focused_index == (if old(self).focused_index > 0 {
                old(self).focused_index - 1
            } else {
                0
            }),
            final(self).expanded == old(self).expanded,
            final(self).total_items == old(self).total_items,
            final(self).mode == old(self).mode,
            final(self).scroll == old(self).scroll,
    {
        self.focused_index = self.focused_index.saturating_sub(1);
    }

    /// Focuses the section at `index` when it exists.
    pub fn focus(&mut self, index: usize)
        ensures
            final(self).focused_index == (if index < old(self).total_items {
                index
            } else {
                old(self).focused_index
            }),
            final(self).expanded == old(self).expanded,
            final(self).total_items == old(self).total_items,
            final(self).mode == old(self).mode,
            final(self).scroll == old(self).scroll,
    {
        if index < self.total_items {
            self.focused_index = index;
        }
    }

    /// The focused section's index.
    pub fn focused_index(&self) -> (r: usize)
        ensures
            r == self.focused_index,
    {
        self.focused_index
    }

    /// Sets the number of sections, moving focus onto the last one when it
    /// was past the end.
    pub fn set_total_items(&mut self, total: usize)
        ensures
            final(self).total_items == total,
            final(self).focused_index == (if old(self).focused_index >= total && total > 0 {
                (total - 1) as usize
            } else {
                old(self).focused_index
            }),
            final(self).expanded == old(self).expanded,
            final(self).mode == old(self).mode,
            final(self).scroll == old(self).scroll,
    {
        self.total_items = total;
        if self.focused_index >= total && total > 0 {
            self.focused_index = total - 1;
        }
    }

    /// Scrolls so that the focused section is visible: up to its first row
    /// when it starts above the viewport, down so that its last row is the
    /// viewport's last when it ends below.
    pub fn ensure_visible(&mut self, viewport_height: u16, item_heights: &[u16])
        requires
            ensure_visible_ok(
                old(self).focused_index,
                old(self).scroll,
                viewport_height,
                item_heights@,
            ),
        ensures
            final(self).scroll == scroll_to_show(
                old(self).focused_index,
                old(self).scroll,
                viewport_height,
                item_heights@,
            ),
            final(self).expanded == old(self).expanded,
            final(self).focused_index == old(self).focused_index,
            final(self).total_items == old(self).total_items,
            final(self).mode == old(self).mode,
    {
        let mut y_pos: u16 = 0;
        let mut focused_start: u16 = 0;
        let mut focused_height: u16 = 1;
        let mut idx: usize = 0;
        let ghost n = min_usize(self.focused_index, item_heights@.len());
        while idx < item_heights.len()
            invariant_except_break
                focused_start == 0,
                focused_height == 1,
            invariant
                idx <= item_heights.len(),
                idx <= self.focused_index,
                y_pos == height_sum(item_heights@, idx as int),
                height_sum(item_heights@, n) <= u16::MAX,
                n == min_usize(self.focused_index, item_heights@.len()),
            ensures
                (focused_start, focused_height) == focus_span(self.focused_index, item_heights@),
            decreases item_heights.len() - idx,
        {
            if idx == self.focused_index {
                focused_start = y_pos;
                focused_height = item_heights[idx];
                break;
            }
            proof {
                lemma_height_sum_monotone(item_heights@, idx + 1, n);
            }
            y_pos = y_pos + item_heights[idx];
            idx = idx + 1;
        }
        if focused_start < self.scroll {
            self.scroll = focused_start;
        } else if focused_start + focused_height > self.scroll + viewport_height {
            self.scroll = (focused_start + focused_height).saturating_sub(viewport_height);
        }
    }
}

impl Default for AccordionState {
    fn default() -> (s: Self)
        ensures
            s.expanded@.len() == 0,
            s.focused_index == 0,
            s.total_items == 0,
            s.mode == AccordionMode::Multiple,
            s.scroll == 0,
    {
        Self::new(0)
    }
}

/// The smaller of two numbers.
pub open spec fn min_usize(a: usize, b: nat) -> int {
    if a <= b {
        a as int
    } else {
        b as int
    }
}

/// The sum of the first `k` heights.
pub open spec fn height_sum(h: Seq<u16>, k: int) -> int
    decreases k,
{
    if k <= 0 {
        0
    } else {
        height_sum(h, k - 1) + h[k - 1]
    }
}

proof fn lemma_height_sum_monotone(h: Seq<u16>, a: int, b: int)
    requires
        a <= b,
    ensures
        height_sum(h, a) <= height_sum(h, b),
    decreases b - a,
{
    if a < b {
        lemma_height_sum_monotone(h, a, b - 1);
    }
}

/// The first row and height of the focused section (row 0 and height 1 when
/// it is past the end of `heights`).
pub open spec fn focus_span(focused: usize, h: Seq<u16>) -> (u16, u16) {
    if focused < h.len() {
        (height_sum(h, focused as int) as u16, h[focused as int])
    } else {
        (0u16, 1u16)
    }
}

/// The inputs on which `ensure_visible` computes without overflow.
pub open spec fn ensure_visible_ok(focused: usize, scroll: u16, viewport: u16, h: Seq<u16>) -> bool {
    let span = focus_span(focused, h);
    &&& height_sum(h, min_usize(focused, h.len())) <= u16::MAX
    &&& (span.0 >= scroll ==> span.0 + span.1 <= u16::MAX && scroll + viewport <= u16::MAX)
}

/// The scroll offset after `ensure_visible`.
pub open spec fn scroll_to_show(focused: usize, scroll: u16, viewport: u16, h: Seq<u16>) -> u16 {
    let span = focus_span(focused, h);
    if span.0 < scroll {
        span.0
    } else if span.0 + span.1 > scroll + viewport {
        (if span.0 + span.1 >= viewport {
            span.0 + span.1 - viewport
        } else {
            0
        }) as u16
    } else {
        scroll
    }
}

/// The height of one section: its header row, its content rows when
/// expanded (from `content_heights`, 3 when absent), and a border row when
/// borders are shown.
pub open spec fn item_height_spec(
    expanded: bool,
    idx: int,
    content_heights: Seq<u16>,
    show_borders: bool,
) -> int {
    1 + (if expanded {
        if 0 <= idx < content_heights.len() {
            content_heights[idx] as int
        } else {
            3
        }
    } else {
        0
    }) + (if show_borders {
        1int
    } else {
        0
    })
}

/// The height of one section (see `item_height_spec`).
pub fn item_height(expanded: bool, idx: usize, content_heights: &[u16], show_borders: bool) -> (r:
    u16)
    requires
        item_height_spec(expanded, idx as int, content_heights@, show_borders) <= u16::MAX,
    ensures
        r == item_height_spec(expanded, idx as int, content_heights@, show_borders),
{
    let content: u16 = if expanded {
        if idx < content_heights.len() {
            content_heights[idx]
        } else {
            3
        }
    } else {
        0
    };
    let border: u16 = if show_borders {
        1
    } else {
        0
    };
    1 + content + border
}

/// The total height of sections whose ids are `ids`.
pub open spec fn total_height(
    ids: Seq<String>,
    expanded: Set<Seq<char>>,
    content_heights: Seq<u16>,
    show_borders: bool,
) -> int
    decreases ids.len(),
{
    if ids.len() == 0 {
        0
    } else {
        total_height(ids.drop_last(), expanded, content_heights, show_borders) + item_height_spec(
            expanded.contains(ids.last()@),
            ids.len() - 1,
            content_heights,
            show_borders,
        )
    }
}

proof fn lemma_total_height_monotone(
    ids: Seq<String>,
    k: int,
    expanded: Set<Seq<char>>,
    content_heights: Seq<u16>,
    show_borders: bool,
)
    requires
        0 <= k <= ids.len(),
    ensures
        total_height(ids.subrange(0, k), expanded, content_heights, show_borders) <= total_height(
            ids,
            expanded,
            content_heights,
            show_borders,
        ),
    decreases ids.len() - k,
{
    if k < ids.len() {
        lemma_total_height_monotone(ids.drop_last(), k, expanded, content_heights, show_borders);
        assert(ids.drop_last().subrange(0, k) =~= ids.subrange(0, k));
    } else {
        assert(ids.subrange(0, k) =~= ids);
    }
}

/// The id function may return `ids[i]` for item `i`, for every id given.
pub open spec fn ids_from<T, I: Fn(&T, usize) -> String>(
    id_fn: I,
    items: Seq<T>,
    ids: Seq<String>,
) -> bool {
    &&& ids.len() <= items.len()
    &&& forall|i: int| 0 <= i < ids.len() ==> call_ensures(id_fn, (&items[i], i as usize), ids[i])
}

/// The total height needed to show the items: one header row each, content
/// rows for the expanded ones, and a border row each when borders are
/// shown. Every partial sum must fit in `u16`, whatever ids the function
/// returns.
pub fn calculate_height<T, I: Fn(&T, usize) -> String>(
    items: &[T],
    state: &AccordionState,
    id_fn: I,
    content_heights: &[u16],
    show_borders: bool,
) -> (r: u16)
    requires
        forall|i: int| 0 <= i < items@.len() ==> call_requires(id_fn, (&items@[i], i as usize)),
        forall|ids: Seq<String>|
            ids_from(id_fn, items@, ids) ==> total_height(
                ids,
                state.expanded_set(),
                content_heights@,
                show_borders,
            ) <= u16::MAX,
    ensures
        exists|ids: Seq<String>|
            ids_from(id_fn, items@, ids) && ids.len() == items@.len() && r == total_height(
                ids,
                state.expanded_set(),
                content_heights@,
                show_borders,
            ),
{
    let mut total: u16 = 0;
    let mut ids: Vec<String> = Vec::new();
    let mut idx: usize = 0;
    while idx < items.len()
        invariant
            idx <= items.len(),
            ids@.len() == idx,
            forall|i: int| 0 <= i < items@.len() ==> call_requires(id_fn, (&items@[i], i as usize)),
            forall|i: int| 0 <= i < idx ==> call_ensures(id_fn, (&items@[i], i as usize), ids@[i]),
            forall|ids: Seq<String>|
                ids_from(id_fn, items@, ids) ==> total_height(
                    ids,
                    state.expanded_set(),
                    content_heights@,
                    show_borders,
                ) <= u16::MAX,
            total == total_height(ids@, state.expanded_set(), content_heights@, show_borders),
        decreases items.len() - idx,
    {
        let id = id_fn(&items[idx], idx);
        let expanded = state.is_expanded(id.as_str());
        proof {
            let next = ids@.push(id);
            assert(ids_from(id_fn, items@, next));
            assert(next.drop_last() =~= ids@);
        }
        let h = item_height(expanded, idx, content_heights, show_borders);
        total = total + h;
        ids.push(id);
        idx = idx + 1;
    }
    assert(ids_from(id_fn, items@, ids@));
    total
}

/// Keyboard handling: Up/k and Down/j move focus, Enter/Space toggle the
/// focused section (its id comes from `get_id`), Home/End focus the first and
/// last section. Returns whether the key was handled.
pub fn handle_accordion_key<G: Fn(usize) -> String>(
    state: &mut AccordionState,
    key: &KeyEvent,
    get_id: G,
) -> (handled: bool)
    requires
        no_duplicate_texts(old(state).expanded@),
        call_requires(get_id, (old(state).focused_index,)),
    ensures
        no_duplicate_texts(final(state).expanded@),
        handled == (key.code == KeyCode::Up || key.code == KeyCode::Char('k') || key.code
            == KeyCode::Down || key.code == KeyCode::Char('j') || key.code == KeyCode::Enter
            || key.code == KeyCode::Char(' ') || key.code == KeyCode::Home || key.code
            == KeyCode::End),
        final(state).total_items == old(state).total_items,
        final(state).mode == old(state).mode,
        final(state).scroll == old(state).scroll,
        match key.code {
            KeyCode::Up | KeyCode::Char('k') => final(state).focused_index == (if old(
                state,
            ).focused_index > 0 {
                old(state).focused_index - 1
            } else {
                0
            }) && final(state).expanded == old(state).expanded,
            KeyCode::Down | KeyCode::Char('j') => final(state).focused_index == (if old(
                state,
            ).focused_index + 1 < old(state).total_items {
                old(state).focused_index + 1
            } else {
                old(state).focused_index as int
            }) && final(state).expanded == old(state).expanded,
            KeyCode::Enter | KeyCode::Char(' ') => final(state).focused_index == old(
                state,
            ).focused_index && exists|id: String|
                call_ensures(get_id, (old(state).focused_index,), id) && final(state).expanded_set()
                    == (if old(state).expanded_set().contains(id@) {
                    old(state).expanded_set().remove(id@)
                } else {
                    AccordionState::expand_spec(old(state).mode, old(state).expanded_set(), id@)
                }),
            KeyCode::Home => final(state).focused_index == (if 0 < old(state).total_items {
                0
            } else {
                old(state).focused_index
            }) && final(state).expanded == old(state).expanded,
            KeyCode::End => final(state).focused_index == (if old(state).total_items > 0 {
                (old(state).total_items - 1) as usize
            } else {
                old(state).focused_index
            }) && final(state).expanded == old(state).expanded,
            _ => *final(state) == *old(state),
        },
{
    match key.code {
        KeyCode::Up | KeyCode::Char('k') => {
            state.focus_prev();
            true
        },
        KeyCode::Down | KeyCode::Char('j') => {
            state.focus_next();
            true
        },
        KeyCode::Enter | KeyCode::Char(' ') => {
            let id = get_id(state.focused_index);
            state.toggle(id.as_str());
            true
        },
        KeyCode::Home => {
            state.focus(0);
            true
        },
        KeyCode::End => {
            if state.total_items > 0 {
                state.focus(state.total_items - 1);
            }
            true
        },
        _ => false,
    }
}

/// The area at `i` contains the cell and no earlier one does.
pub open spec fn area_hit_at(areas: Seq<(usize, Rect, String)>, col: u16, row: u16, i: int) -> bool {
    &&& 0 <= i < areas.len()
    &&& rect_contains(areas[i].1, col, row)
    &&& forall|j: int| 0 <= j < i ==> !rect_contains(#[trigger] areas[j].1, col, row)
}

/// Mouse handling: a left click on a section header focuses that section
/// and toggles it. `item_areas` holds (index, header area, id) per section;
/// the first area containing the click wins. Returns whether a header was
/// clicked.
pub fn handle_accordion_mouse(
    state: &mut AccordionState,
    mouse: &MouseEvent,
    item_areas: &[(usize, Rect, String)],
) -> (handled: bool)
    requires
        no_duplicate_texts(old(state).expanded@),
        forall|i: int| 0 <= i < item_areas@.len() ==> (#[trigger] item_areas@[i]).1.fits(),
    ensures
        no_duplicate_texts(final(state).expanded@),
        final(state).total_items == old(state).total_items,
        final(state).mode == old(state).mode,
        final(state).scroll == old(state).scroll,
        if mouse.kind == MouseEventKind::Down(MouseButton::Left) && exists|i: int|
            #[trigger] area_hit_at(item_areas@, mouse.column, mouse.row, i) {
            handled && exists|i: int|
                #[trigger] area_hit_at(item_areas@, mouse.column, mouse.row, i)
                    && final(state).focused_index == (if item_areas@[i].0 < old(state).total_items {
                    item_areas@[i].0
                } else {
                    old(state).focused_index
                }) && final(state).expanded_set() == (if old(state).expanded_set().contains(
                    item_areas@[i].2@,
                ) {
                    old(state).expanded_set().remove(item_areas@[i].2@)
                } else {
                    AccordionState::expand_spec(
                        old(state).mode,
                        old(state).expanded_set(),
                        item_areas@[i].2@,
                    )
                })
        } else {
            !handled && *final(state) == *old(state)
        },
{
    let ghost s0 = *state;
    if let MouseEventKind::Down(MouseButton::Left) = mouse.kind {
        let mut i: usize = 0;
        while i < item_areas.len()
            invariant
                i <= item_areas.len(),
                forall|k: int| 0 <= k < item_areas@.len() ==> (#[trigger] item_areas@[k]).1.fits(),
                forall|j: int|
                    0 <= j < i ==> !rect_contains(
                        #[trigger] item_areas@[j].1,
                        mouse.column,
                        mouse.row,
                    ),
                *state == s0,
                s0 == *old(state),
                mouse.kind == MouseEventKind::Down(MouseButton::Left),
                no_duplicate_texts(s0.expanded@),
            decreases item_areas.len() - i,
        {
            let area = item_areas[i].1;
            let ghost before = *state;
            if mouse.column >= area.x && mouse.column < area.x + area.width && mouse.row >= area.y
                && mouse.row < area.y + area.height {
                state.focus(item_areas[i].0);
                assert(state.expanded@ == s0.expanded@);
                state.toggle(item_areas[i].2.as_str());
                assert(area_hit_at(item_areas@, mouse.column, mouse.row, i as int));
                assert(mouse.kind == MouseEventKind::Down(MouseButton::Left));
                assert(state.focused_index == (if item_areas@[i as int].0 < s0.total_items {
                    item_areas@[i as int].0
                } else {
                    s0.focused_index
                }));
                assert(state.expanded_set() == (if s0.expanded_set().contains(
                    item_areas@[i as int].2@,
                ) {
                    s0.expanded_set().remove(item_areas@[i as int].2@)
                } else {
                    AccordionState::expand_spec(s0.mode, s0.expanded_set(), item_areas@[i as int].2@)
                }));
                return true;
            }
            i = i + 1;
        }
    }
    false
}

/// Colors, icons and layout of an accordion.
#[derive(Debug, Clone)]
pub struct AccordionStyle {
    pub header_style: Style,
    pub header_focused_style: Style,
    pub content_style: Style,
    pub expanded_icon: &'static str,
    pub collapsed_icon: &'static str,
    pub border_style: Style,
    pub show_borders: bool,
    pub content_indent: u16,
    pub icon_style: Style,
}

/// Every field of `s` but the icons and the borders flag has its default
/// value.
pub open spec fn accordion_style_defaults(s: AccordionStyle) -> bool {
    &&& s.header_style == fg_style(Color::White)
    &&& s.header_focused_style == with_modifier(fg_style(Color::Yellow), Modifier { bits: 1 })
    &&& s.content_style == fg_style(Color::Gray)
    &&& s.border_style == fg_style(Color::DarkGray)
    &&& s.content_indent == 2
    &&& s.icon_style == fg_style(Color::Cyan)
}

impl Default for AccordionStyle {
    fn default() -> (s: Self)
        ensures
            accordion_style_defaults(s),
            s.expanded_icon@ == "▼ "@,
            s.collapsed_icon@ == "▶ "@,
            !s.show_borders,
    {
        AccordionStyle {
            header_style: fg(Color::White),
            header_focused_style: fg(Color::Yellow).add_modifier(Modifier::bold()),
            content_style: fg(Color::Gray),
            expanded_icon: "▼ ",
            collapsed_icon: "▶ ",
            border_style: fg(Color::DarkGray),
            show_borders: false,
            content_indent: 2,
            icon_style: fg(Color::Cyan),
        }
    }
}

impl AccordionStyle {
    /// The default style with "- " and "+ " as icons.
    pub fn minimal() -> (s: Self)
        ensures
            accordion_style_defaults(s),
            s.expanded_icon@ == "- "@,
            s.collapsed_icon@ == "+ "@,
            !s.show_borders,
    {
        AccordionStyle { expanded_icon: "- ", collapsed_icon: "+ ", ..Self::default() }
    }

    /// The default style with a border row under each section.
    pub fn bordered() -> (s: Self)
        ensures
            accordion_style_defaults(s),
            s.expanded_icon@ == "▼ "@,
            s.collapsed_icon@ == "▶ "@,
            s.show_borders,
    {
        AccordionStyle { show_borders: true, ..Self::default() }
    }

    /// Sets the header style.
    pub fn header_style(self, style: Style) -> (s: Self)
        ensures
            s == (AccordionStyle { header_style: style, ..self }),
    {
        AccordionStyle { header_style: style, ..self }
    }

    /// Sets the style of the focused header.
    pub fn header_focused_style(self, style: Style) -> (s: Self)
        ensures
            s == (AccordionStyle { header_focused_style: style, ..self }),
    {
        AccordionStyle { header_focused_style: style, ..self }
    }

    /// Sets the content style.
    pub fn content_style(self, style: Style) -> (s: Self)
        ensures
            s == (AccordionStyle { content_style: style, ..self }),
    {
        AccordionStyle { content_style: style, ..self }
    }

    /// Sets the icon of expanded sections.
    pub fn expanded_icon(self, icon: &'static str) -> (s: Self)
        ensures
            s == (AccordionStyle { expanded_icon: icon, ..self }),
    {
        AccordionStyle { expanded_icon: icon, ..self }
    }

    /// Sets the icon of collapsed sections.
    pub fn collapsed_icon(self, icon: &'static str) -> (s: Self)
        ensures
            s == (AccordionStyle { collapsed_icon: icon, ..self }),
    {
        AccordionStyle { collapsed_icon: icon, ..self }
    }

    /// Sets the icon style.
    pub fn icon_style(self, style: Style) -> (s: Self)
        ensures
            s == (AccordionStyle { icon_style: style, ..self }),
    {
        AccordionStyle { icon_style: style, ..self }
    }

    /// Sets the content indentation, in cells.
    pub fn content_indent(self, indent: u16) -> (s: Self)
        ensures
            s == (AccordionStyle { content_indent: indent, ..self }),
    {
        AccordionStyle { content_indent: indent, ..self }
    }

    /// Shows or hides the border rows.
    pub fn show_borders(self, show: bool) -> (s: Self)
        ensures
            s == (AccordionStyle { show_borders: show, ..self }),
    {
        AccordionStyle { show_borders: show, ..self }
    }
}

/// Where one section of an accordion is drawn.
#[derive(Debug, Clone, Copy, PartialEq, Eq)]
pub struct AccordionRow {
    /// The section's index.
    pub index: usize,
    pub focused: bool,
    pub expanded: bool,
    /// The header row, when visible.
    pub header: Option<Rect>,
    /// The area given to the content, when some of it is visible.
    pub content: Option<Rect>,
    /// The border row, when drawn.
    pub border: Option<Rect>,
}

/// The content rows of section `i`: from `content_heights`, 3 when absent,
/// none when collapsed.
pub open spec fn content_rows(expanded: bool, i: int, heights: Option<Seq<u16>>) -> int {
    if expanded {
        match heights {
            Some(h) => if 0 <= i < h.len() { h[i] as int } else { 3 },
            None => 3,
        }
    } else {
        0
    }
}

/// Section `i`, not wholly above the scroll offset, drawn from row `y`
/// (above the bottom) with `cur` rows of sections above it: its row, and
/// the row after it. It shows its header when not scrolled past, then as
/// much of its content as fits (indented), then a border row when borders
/// are on.
pub open spec fn acc_place(
    st: AccordionState,
    sty: AccordionStyle,
    exp: bool,
    ch: int,
    area: Rect,
    i: int,
    y: int,
    cur: int,
) -> (AccordionRow, int) {
    let bottom = area.y + area.height;
    let skip = if st.scroll > cur { st.scroll - cur } else { 0 };
    let header = skip == 0 && bottom - y > 0;
    let y1 = if header { y + 1 } else { y };
    let cs = if skip > 1 { skip - 1 } else { 0 };
    let ca0 = if ch > cs { ch - cs } else { 0 };
    let ca = if bottom - y1 < ca0 { bottom - y1 } else { ca0 };
    let has_content = exp && y1 < bottom && ca > 0;
    let y2 = if has_content { y1 + ca } else { y1 };
    let has_border = sty.show_borders && y2 < bottom;
    let y3 = if has_border { y2 + 1 } else { y2 };
    let row = AccordionRow {
        index: i as usize,
        focused: i == st.focused_index,
        expanded: exp,
        header: if header { Some(Rect::new_spec(area.x, y as u16, area.width, 1)) } else { None },
        content: if has_content {
            Some(Rect::new_spec(
                (area.x + sty.content_indent) as u16,
                y1 as u16,
                sat_sub16(area.width, sty.content_indent),
                ca as u16,
            ))
        } else {
            None
        },
        border: if has_border { Some(Rect::new_spec(area.x, y2 as u16, area.width, 1)) } else { None },
    };
    (row, y3)
}

/// The indented content column of section `i` placed at `y` fits in `u16`.
pub open spec fn acc_place_fits(st: AccordionState, sty: AccordionStyle, exp: bool, ch: int, area: Rect, y: int, cur: int) -> bool {
    let bottom = area.y + area.height;
    let skip = if st.scroll > cur { st.scroll - cur } else { 0 };
    let header = skip == 0 && bottom - y > 0;
    let y1 = if header { y + 1 } else { y };
    let cs = if skip > 1 { skip - 1 } else { 0 };
    let ca0 = if ch > cs { ch - cs } else { 0 };
    let ca = if bottom - y1 < ca0 { bottom - y1 } else { ca0 };
    (exp && y1 < bottom && ca > 0) ==> area.x + sty.content_indent <= u16::MAX
}

/// The sections from `i` on, drawn from row `y` of `area`, `cur` rows of
/// sections being above: sections wholly above the scroll offset are
/// skipped; drawing stops at the bottom of the area (see `acc_place`).
pub open spec fn acc_rows(
    st: AccordionState,
    sty: AccordionStyle,
    ids: Seq<String>,
    heights: Option<Seq<u16>>,
    area: Rect,
    i: int,
    y: int,
    cur: int,
) -> Seq<AccordionRow>
    decreases ids.len() - i,
{
    if i < 0 || i >= ids.len() {
        Seq::empty()
    } else {
        let exp = st.expanded_set().contains(ids[i]@);
        let ch = content_rows(exp, i, heights);
        let ih = 1 + ch;
        if cur + ih <= st.scroll {
            acc_rows(st, sty, ids, heights, area, i + 1, y, cur + ih)
        } else if y >= area.y + area.height {
            Seq::empty()
        } else {
            let p = acc_place(st, sty, exp, ch, area, i, y, cur);
            seq![p.0] + acc_rows(st, sty, ids, heights, area, i + 1, p.1, cur + ih)
        }
    }
}

/// Drawing the sections from `i` on counts rows within `u16`: the rows of
/// the sections passed, each section's height, and the indented content
/// column.
pub open spec fn acc_fits(
    st: AccordionState,
    sty: AccordionStyle,
    ids: Seq<String>,
    heights: Option<Seq<u16>>,
    area: Rect,
    i: int,
    y: int,
    cur: int,
) -> bool
    decreases ids.len() - i,
{
    if i < 0 || i >= ids.len() {
        true
    } else {
        let exp = st.expanded_set().contains(ids[i]@);
        let ch = content_rows(exp, i, heights);
        let ih = 1 + ch;
        &&& cur + ih <= u16::MAX
        &&& if cur + ih <= st.scroll {
            acc_fits(st, sty, ids, heights, area, i + 1, y, cur + ih)
        } else if y >= area.y + area.height {
            true
        } else {
            &&& acc_place_fits(st, sty, exp, ch, area, y, cur)
            &&& acc_fits(st, sty, ids, heights, area, i + 1, acc_place(st, sty, exp, ch, area, i, y, cur).1, cur + ih)
        }
    }
}

/// Places a section (see `acc_place`).
fn place_section(
    state: &AccordionState,
    style: &AccordionStyle,
    exp: bool,
    ch: u16,
    area: Rect,
    i: usize,
    y: u16,
    cur: u16,
) -> (r: (AccordionRow, u16))
    requires
        area.fits(),
        area.y <= y < area.y + area.height,
        acc_place_fits(*state, *style, exp, ch as int, area, y as int, cur as int),
    ensures
        r.0 == acc_place(*state, *style, exp, ch as int, area, i as int, y as int, cur as int).0,
        r.1 == acc_place(*state, *style, exp, ch as int, area, i as int, y as int, cur as int).1,
        r.1 <= area.y + area.height,
{
    let bottom = area.y + area.height;
    let skip = state.scroll.saturating_sub(cur);
    let header = skip == 0 && bottom - y > 0;
    let y1 = if header { y + 1 } else { y };
    let cs = skip.saturating_sub(1);
    let ca0 = ch.saturating_sub(cs);
    let ca = if bottom - y1 < ca0 { bottom - y1 } else { ca0 };
    let has_content = exp && y1 < bottom && ca > 0;
    let y2 = if has_content { y1 + ca } else { y1 };
    let has_border = style.show_borders && y2 < bottom;
    let y3 = if has_border { y2 + 1 } else { y2 };
    let row = AccordionRow {
        index: i,
        focused: i == state.focused_index,
        expanded: exp,
        header: if header { Some(Rect::new(area.x, y, area.width, 1)) } else { None },
        content: if has_content {
            Some(Rect::new(area.x + style.content_indent, y1, area.width.saturating_sub(style.content_indent), ca))
        } else {
            None
        },
        border: if has_border { Some(Rect::new(area.x, y2, area.width, 1)) } else { None },
    };
    (row, y3)
}

/// Where each section of the accordion goes in `area`, given the section
/// ids (see `acc_rows`); nothing for an empty area.
pub fn accordion_layout(
    state: &AccordionState,
    style: &AccordionStyle,
    ids: &[String],
    content_heights: Option<&[u16]>,
    area: Rect,
) -> (r: Vec<AccordionRow>)
    requires
        area.fits(),
        acc_fits(*state, *style, ids@, match content_heights { Some(h) => Some(h@), None => None }, area, 0, area.y as int, 0),
    ensures
        (area.width == 0 || area.height == 0) ==> r@.len() == 0,
        (area.width > 0 && area.height > 0) ==> r@ == acc_rows(
            *state,
            *style,
            ids@,
            match content_heights { Some(h) => Some(h@), None => None },
            area,
            0,
            area.y as int,
            0,
        ),
{
    let mut rows: Vec<AccordionRow> = Vec::new();
    if area.width == 0 || area.height == 0 {
        return rows;
    }
    let ghost hs = match content_heights { Some(h) => Some(h@), None => None };
    let ghost total = acc_rows(*state, *style, ids@, hs, area, 0, area.y as int, 0);
    let bottom = area.y + area.height;
    let mut y: u16 = area.y;
    let mut cur: u16 = 0;
    let mut i: usize = 0;
    while i < ids.len()
        invariant_except_break
            i <= ids@.len(),
            bottom == area.y + area.height,
            area.fits(),
            area.y <= y <= bottom,
            hs == match content_heights { Some(h) => Some(h@), None => None },
            acc_fits(*state, *style, ids@, hs, area, i as int, y as int, cur as int),
            rows@ + acc_rows(*state, *style, ids@, hs, area, i as int, y as int, cur as int) == total,
        ensures
            rows@ == total,
        decreases ids@.len() - i,
    {
        let exp = state.is_expanded(ids[i].as_str());
        let ch: u16 = if exp {
            match content_heights {
                Some(h) => if i < h.len() { h[i] } else { 3 },
                None => 3,
            }
        } else {
            0
        };
        assert(ch == content_rows(exp, i as int, hs));
        let ih = 1 + ch;
        if cur + ih <= state.scroll {
            cur = cur + ih;
            i = i + 1;
            continue;
        }
        if y >= bottom {
            proof {
                assert(rows@ + Seq::<AccordionRow>::empty() =~= rows@);
            }
            break;
        }
        let (row, y3) = place_section(state, style, exp, ch, area, i, y, cur);
        let ghost before = rows@;
        rows.push(row);
        proof {
            let rest = acc_rows(*state, *style, ids@, hs, area, i + 1, y3 as int, cur + ih);
            assert(rows@ + rest =~= before + (seq![row] + rest));
        }
        y = y3;
        cur = cur + ih;
        i = i + 1;
    }
    rows
}

/// The height of each section, given the section ids: header, content
/// rows when expanded (see `content_rows`), and a border row when borders
/// are on.
pub fn item_heights(
    state: &AccordionState,
    ids: &[String],
    content_heights: Option<&[u16]>,
    show_borders: bool,
) -> (r: Vec<u16>)
    requires
        forall|i: int| 0 <= i < ids@.len() ==> 1 + content_rows(
            state.expanded_set().contains(#[trigger] ids@[i]@),
            i,
            match content_heights { Some(h) => Some(h@), None => None },
        ) + (if show_borders { 1int } else { 0 }) <= u16::MAX,
    ensures
        r@.len() == ids@.len(),
        forall|i: int| 0 <= i < ids@.len() ==> #[trigger] r@[i] == 1 + content_rows(
            state.expanded_set().contains(ids@[i]@),
            i,
            match content_heights { Some(h) => Some(h@), None => None },
        ) + (if show_borders { 1int } else { 0 }),
{
    let mut r: Vec<u16> = Vec::new();
    let mut i: usize = 0;
    while i < ids.len()
        invariant
            i <= ids@.len(),
            r@.len() == i,
            forall|j: int| 0 <= j < ids@.len() ==> 1 + content_rows(
                state.expanded_set().contains(#[trigger] ids@[j]@),
                j,
                match content_heights { Some(h) => Some(h@), None => None },
            ) + (if show_borders { 1int } else { 0 }) <= u16::MAX,
            forall|j: int| 0 <= j < i ==> #[trigger] r@[j] == 1 + content_rows(
                state.expanded_set().contains(ids@[j]@),
                j,
                match content_heights { Some(h) => Some(h@), None => None },
            ) + (if show_borders { 1int } else { 0 }),
        decreases ids@.len() - i,
    {
        let exp = state.is_expanded(ids[i].as_str());
        let ch: u16 = if exp {
            match content_heights {
                Some(h) => if i < h.len() { h[i] } else { 3 },
                None => 3,
            }
        } else {
            0
        };
        assert(1 + ch + (if show_borders { 1int } else { 0 }) <= u16::MAX) by {
            assert(ch == content_rows(state.expanded_set().contains(ids@[i as int]@), i as int, match content_heights { Some(h) => Some(h@), None => None }));
        }
        let b: u16 = if show_borders { 1 } else { 0 };
        r.push(1 + ch + b);
        i = i + 1;
    }
    r
}

/// Single mode is a true accordion: when at most one section is expanded,
/// it stays so after toggling, expanding or collapsing any section, and
/// expanding leaves exactly that section open.
pub proof fn single_mode_keeps_one_open(set: Set<Seq<char>>, id: Seq<char>)
    requires
        set.finite(),
        set.len() <= 1,
    ensures
        ({
            let toggled = if set.contains(id) {
                set.remove(id)
            } else {
                AccordionState::expand_spec(AccordionMode::Single, set, id)
            };
            toggled.finite() && toggled.len() <= 1
        }),
        AccordionState::expand_spec(AccordionMode::Single, set, id) == Set::<Seq<char>>::empty().insert(id),
        set.remove(id).finite() && set.remove(id).len() <= 1,
{
    assert(Set::<Seq<char>>::empty().insert(id).len() == 1);
}

/// In multiple mode a second toggle of a section undoes the first.
pub proof fn multiple_mode_toggle_twice(set: Set<Seq<char>>, id: Seq<char>)
    ensures
        ({
            let once = if set.contains(id) {
                set.remove(id)
            } else {
                AccordionState::expand_spec(AccordionMode::Multiple, set, id)
            };
            let twice = if once.contains(id) {
                once.remove(id)
            } else {
                AccordionState::expand_spec(AccordionMode::Multiple, once, id)
            };
            twice == set
        }),
{
    if set.contains(id) {
        assert(set.remove(id).insert(id) =~= set);
    } else {
        assert(set.insert(id).remove(id) =~= set);
    }
}

} // verus!
