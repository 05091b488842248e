//! Toast stack: many toasts at once, each with an id and a dismiss policy,
//! a bounded number kept, laid out from an edge of the area.
use vstd::prelude::*;
use vstd::string::*;
use std::collections::VecDeque;
use crate::components::toast::{current_time_ms, toast_size, toast_size_ok, toast_dimensions, ToastStyle};
use crate::geometry::{sat_add16, sat_sub16, Rect};
use crate::text::string_from_str;

verus! {

/// The identifier of a toast in a stack.
pub type ToastId = u64;

/// When a toast goes away.
#[derive(Debug, Clone, Copy, PartialEq, Eq, Structural)]
pub enum ToastDismissPolicy {
    /// After `duration_ms`.
    Auto { duration_ms: i64 },
    /// When dismissed.
    Manual,
    /// When dismissed, or after `duration_ms`.
    ManualOrTimeout { duration_ms: i64 },
}

/// When a toast made at `now` under `p` expires (sums wrap around on
/// overflow, as a release build computes them).
pub open spec fn expiry_of(p: ToastDismissPolicy, now: i64) -> Option<i64> {
    match p {
        ToastDismissPolicy::Auto { duration_ms } => Some(now.wrapping_add(duration_ms)),
        ToastDismissPolicy::Manual => None,
        ToastDismissPolicy::ManualOrTimeout { duration_ms } => Some(now.wrapping_add(duration_ms)),
    }
}

impl ToastDismissPolicy {
    /// When a toast made at `now_ms` expires.
    fn expires_at_ms(&self, now_ms: i64) -> (r: Option<i64>)
        ensures
            r == expiry_of(*self, now_ms),
    {
        match *self {
            ToastDismissPolicy::Auto { duration_ms } => Some(now_ms.wrapping_add(duration_ms)),
            ToastDismissPolicy::Manual => None,
            ToastDismissPolicy::ManualOrTimeout { duration_ms } => Some(now_ms.wrapping_add(duration_ms)),
        }
    }
}

/// One toast of a stack.
#[derive(Debug, Clone, PartialEq, Eq)]
pub struct ToastItem {
    pub id: ToastId,
    pub message: String,
    pub style: ToastStyle,
    /// Guess the kind from the message.
    pub auto_style: bool,
    pub created_at_ms: i64,
    pub expires_at_ms: Option<i64>,
    pub dismiss_policy: ToastDismissPolicy,
}

/// Where a stack sits in its area.
#[derive(Debug, Clone, Copy, PartialEq, Eq, Structural, Default)]
pub enum ToastPlacement {
    #[default]
    TopCenter,
    TopLeft,
    TopRight,
    BottomCenter,
    BottomLeft,
    BottomRight,
}

/// Which toasts come first.
#[derive(Debug, Clone, Copy, PartialEq, Eq, Structural, Default)]
pub enum ToastOrder {
    #[default]
    NewestFirst,
    OldestFirst,
}

/// How a stack is laid out.
#[derive(Debug, Clone, Copy, PartialEq, Eq)]
pub struct ToastStackLayout {
    pub placement: ToastPlacement,
    /// Margin from the area's edges: (columns, rows).
    pub margin: (u16, u16),
    /// Rows between toasts.
    pub gap_y: u16,
    pub max_width: u16,
    pub max_height: u16,
    pub max_toasts_visible: usize,
    pub order: ToastOrder,
    /// Extra rows from the top edge, for top placements.
    pub edge_offset_y: u16,
}

/// The default layout: top center, a margin of one cell, one row between
/// toasts, at most 80 by 8 each, five shown, newest first, three rows
/// below the top.
pub open spec fn default_layout() -> ToastStackLayout {
    ToastStackLayout {
        placement: ToastPlacement::TopCenter,
        margin: (1u16, 1u16),
        gap_y: 1,
        max_width: 80,
        max_height: 8,
        max_toasts_visible: 5,
        order: ToastOrder::NewestFirst,
        edge_offset_y: 3,
    }
}

impl Default for ToastStackLayout {
    fn default() -> (l: Self)
        ensures
            l == default_layout(),
    {
        ToastStackLayout {
            placement: ToastPlacement::TopCenter,
            margin: (1, 1),
            gap_y: 1,
            max_width: 80,
            max_height: 8,
            max_toasts_visible: 5,
            order: ToastOrder::NewestFirst,
            edge_offset_y: 3,
        }
    }
}

/// The toasts of a stack, oldest first, with the next id to give and the
/// most toasts kept.
#[derive(Debug, Clone)]
pub struct ToastStackState {
    items: VecDeque<ToastItem>,
    next_id: ToastId,
    capacity: usize,
}

/// The last `cap` elements of `s` (all of it when shorter).
pub open spec fn keep_last<T>(s: Seq<T>, cap: int) -> Seq<T> {
    if s.len() > cap { s.subrange(s.len() - cap, s.len() as int) } else { s }
}

/// The toasts among the first `n` not expired at `now`.
pub open spec fn unexpired(items: Seq<ToastItem>, now: i64, n: int) -> Seq<ToastItem>
    decreases n,
{
    if n <= 0 {
        Seq::empty()
    } else {
        let prev = unexpired(items, now, n - 1);
        match items[n - 1].expires_at_ms {
            Some(e) => if now < e { prev.push(items[n - 1]) } else { prev },
            None => prev.push(items[n - 1]),
        }
    }
}

/// `item` as a stack keeps it when added at `now` with id `id`: a
/// creation time of 0 becomes `now`, and a missing expiry comes from the
/// policy.
pub open spec fn stamped(item: ToastItem, id: ToastId, now: i64) -> ToastItem {
    let created = if item.created_at_ms == 0 { now } else { item.created_at_ms };
    ToastItem {
        id,
        created_at_ms: created,
        expires_at_ms: if item.expires_at_ms is None { expiry_of(item.dismiss_policy, created) } else { item.expires_at_ms },
        ..item
    }
}

/// The first position of a toast with id `id`.
pub open spec fn id_at(items: Seq<ToastItem>, id: ToastId, r: Option<usize>) -> bool {
    match r {
        Some(i) => i < items.len() && items[i as int].id == id && forall|j: int| 0 <= j < i ==> (#[trigger] items[j]).id != id,
        None => forall|j: int| 0 <= j < items.len() ==> (#[trigger] items[j]).id != id,
    }
}

/// The first position of a toast with id `id`.
fn find_toast(items: &VecDeque<ToastItem>, id: ToastId) -> (r: Option<usize>)
    ensures
        id_at(items@, id, r),
{
    let mut i: usize = 0;
    while i < items.len()
        invariant
            i <= items@.len(),
            forall|j: int| 0 <= j < i ==> (#[trigger] items@[j]).id != id,
        decreases items@.len() - i,
    {
        if items[i].id == id {
            return Some(i);
        }
        i = i + 1;
    }
    None
}

impl ToastStackState {
    /// The toasts, oldest first.
    pub closed spec fn items_view(&self) -> Seq<ToastItem> {
        self.items@
    }

    /// The id the next toast gets.
    pub closed spec fn next_id_view(&self) -> ToastId {
        self.next_id
    }

    /// The most toasts kept.
    pub closed spec fn capacity_view(&self) -> usize {
        self.capacity
    }

    /// At least one toast is kept.
    pub open spec fn wf(&self) -> bool {
        self.capacity_view() >= 1
    }

    /// No toast; ids from 1; five toasts kept.
    pub fn new() -> (s: Self)
        ensures
            s.items_view().len() == 0,
            s.next_id_view() == 1,
            s.capacity_view() == 5,
            s.wf(),
    {
        ToastStackState { items: VecDeque::new(), next_id: 1, capacity: 5 }
    }

    /// Drops the oldest toasts beyond the capacity.
    fn enforce_capacity(&mut self)
        ensures
            final(self).items_view() == keep_last(old(self).items_view(), old(self).capacity_view() as int),
            final(self).next_id_view() == old(self).next_id_view(),
            final(self).capacity_view() == old(self).capacity_view(),
    {
        let ghost start = self.items@;
        while self.items.len() > self.capacity
            invariant
                self.capacity == old(self).capacity,
                self.next_id == old(self).next_id,
                start == old(self).items@,
                keep_last(self.items@, self.capacity as int) == keep_last(start, self.capacity as int),
            decreases self.items@.len(),
        {
            let ghost before = self.items@;
            self.items.pop_front();
            assert(keep_last(self.items@, self.capacity as int) =~= keep_last(before, self.capacity as int));
        }
    }

    /// Sets how many toasts are kept (at least one), dropping the oldest
    /// beyond it.
    pub fn set_capacity(&mut self, capacity: usize)
        ensures
            final(self).capacity_view() == if capacity >= 1 { capacity } else { 1 },
            final(self).items_view() == keep_last(old(self).items_view(), final(self).capacity_view() as int),
            final(self).next_id_view() == old(self).next_id_view(),
            final(self).wf(),
    {
        self.capacity = if capacity >= 1 { capacity } else { 1 };
        self.enforce_capacity();
    }

    /// The number of toasts.
    pub fn len(&self) -> (n: usize)
        ensures
            n == self.items_view().len(),
    {
        self.items.len()
    }

    /// Whether there is no toast.
    pub fn is_empty(&self) -> (b: bool)
        ensures
            b == (self.items_view().len() == 0),
    {
        self.items.len() == 0
    }

    /// The toasts, oldest first.
    pub fn items(&self) -> (r: &VecDeque<ToastItem>)
        ensures
            r@ == self.items_view(),
    {
        &self.items
    }

    /// The toasts, oldest first, to change in place.
    pub fn items_mut(&mut self) -> (r: &mut VecDeque<ToastItem>)
        ensures
            r@ == old(self).items_view(),
            final(self).items_view() == final(r)@,
            final(self).next_id_view() == old(self).next_id_view(),
            final(self).capacity_view() == old(self).capacity_view(),
    {
        &mut self.items
    }

    /// Takes the next id (it stops growing at the largest value).
    fn alloc_id(&mut self) -> (id: ToastId)
        ensures
            id == old(self).next_id_view(),
            final(self).next_id_view() == if id < u64::MAX { (id + 1) as u64 } else { id },
            final(self).items_view() == old(self).items_view(),
            final(self).capacity_view() == old(self).capacity_view(),
    {
        let id = self.next_id;
        self.next_id = self.next_id.saturating_add(1);
        id
    }

    /// Adds a toast of `message` made at `now` under `policy`, with the next
    /// id, guessing its kind; drops the oldest beyond the capacity. Returns
    /// its id.
    pub fn push_with_policy_at(&mut self, message: &str, dismiss_policy: ToastDismissPolicy, now: i64) -> (id: ToastId)
        requires
            old(self).wf(),
        ensures
            id == old(self).next_id_view(),
            final(self).next_id_view() == if id < u64::MAX { (id + 1) as u64 } else { id },
            final(self).capacity_view() == old(self).capacity_view(),
            final(self).items_view() == keep_last(
                old(self).items_view().push(final(self).items_view().last()),
                old(self).capacity_view() as int,
            ),
            ({
                let it = final(self).items_view().last();
                &&& it.id == id
                &&& it.message@ == message@
                &&& it.style == ToastStyle::Info
                &&& it.auto_style
                &&& it.created_at_ms == now
                &&& it.expires_at_ms == expiry_of(dismiss_policy, now)
                &&& it.dismiss_policy == dismiss_policy
            }),
            final(self).wf(),
            final(self).items_view().len() <= final(self).capacity_view(),
    {
        let id = self.alloc_id();
        let item = ToastItem {
            id,
            message: string_from_str(message),
            style: ToastStyle::Info,
            auto_style: true,
            created_at_ms: now,
            expires_at_ms: dismiss_policy.expires_at_ms(now),
            dismiss_policy,
        };
        self.items.push_back(item);
        let ghost pushed = self.items@;
        self.enforce_capacity();
        proof {
            assert(pushed.last() == item);
            assert(self.items@.len() > 0);
            assert(self.items@.last() == item);
            assert(pushed =~= old(self).items@.push(item));
        }
        id
    }

    /// Adds a toast under `policy` made now (see `push_with_policy_at`).
    pub fn push_with_policy(&mut self, message: &str, dismiss_policy: ToastDismissPolicy) -> (id: ToastId)
        requires
            old(self).wf(),
        ensures
            id == old(self).next_id_view(),
            final(self).next_id_view() == if id < u64::MAX { (id + 1) as u64 } else { id },
            final(self).capacity_view() == old(self).capacity_view(),
            final(self).items_view() == keep_last(
                old(self).items_view().push(final(self).items_view().last()),
                old(self).capacity_view() as int,
            ),
            ({
                let it = final(self).items_view().last();
                &&& it.id == id
                &&& it.message@ == message@
                &&& it.style == ToastStyle::Info
                &&& it.auto_style
                &&& it.expires_at_ms == expiry_of(dismiss_policy, it.created_at_ms)
                &&& it.dismiss_policy == dismiss_policy
            }),
            final(self).wf(),
            final(self).items_view().len() <= final(self).capacity_view(),
    {
        let now = current_time_ms();
        self.push_with_policy_at(message, dismiss_policy, now)
    }

    /// Adds a toast that goes away after `duration_ms`.
    pub fn push_auto(&mut self, message: &str, duration_ms: i64) -> (id: ToastId)
        requires
            old(self).wf(),
        ensures
            id == old(self).next_id_view(),
            final(self).next_id_view() == if id < u64::MAX { (id + 1) as u64 } else { id },
            final(self).capacity_view() == old(self).capacity_view(),
            final(self).items_view() == keep_last(
                old(self).items_view().push(final(self).items_view().last()),
                old(self).capacity_view() as int,
            ),
            ({
                let it = final(self).items_view().last();
                &&& it.id == id
                &&& it.message@ == message@
                &&& it.style == ToastStyle::Info
                &&& it.auto_style
                &&& it.expires_at_ms == expiry_of((ToastDismissPolicy::Auto { duration_ms }), it.created_at_ms)
                &&& it.dismiss_policy == (ToastDismissPolicy::Auto { duration_ms })
            }),
            final(self).wf(),
            final(self).items_view().len() <= final(self).capacity_view(),
    {
        self.push_with_policy(message, ToastDismissPolicy::Auto { duration_ms })
    }

    /// Adds a toast that stays until dismissed.
    pub fn push_manual(&mut self, message: &str) -> (id: ToastId)
        requires
            old(self).wf(),
        ensures
            id == old(self).next_id_view(),
            final(self).next_id_view() == if id < u64::MAX { (id + 1) as u64 } else { id },
            final(self).capacity_view() == old(self).capacity_view(),
            final(self).items_view() == keep_last(
                old(self).items_view().push(final(self).items_view().last()),
                old(self).capacity_view() as int,
            ),
            ({
                let it = final(self).items_view().last();
                &&& it.id == id
                &&& it.message@ == message@
                &&& it.style == ToastStyle::Info
                &&& it.auto_style
                &&& it.expires_at_ms == expiry_of(ToastDismissPolicy::Manual, it.created_at_ms)
                &&& it.dismiss_policy == ToastDismissPolicy::Manual
            }),
            final(self).wf(),
            final(self).items_view().len() <= final(self).capacity_view(),
    {
        self.push_with_policy(message, ToastDismissPolicy::Manual)
    }

    /// Adds a toast that stays until dismissed or `duration_ms` passes.
    pub fn push_manual_or_timeout(&mut self, message: &str, duration_ms: i64) -> (id: ToastId)
        requires
            old(self).wf(),
        ensures
            id == old(self).next_id_view(),
            final(self).next_id_view() == if id < u64::MAX { (id + 1) as u64 } else { id },
            final(self).capacity_view() == old(self).capacity_view(),
            final(self).items_view() == keep_last(
                old(self).items_view().push(final(self).items_view().last()),
                old(self).capacity_view() as int,
            ),
            ({
                let it = final(self).items_view().last();
                &&& it.id == id
                &&& it.message@ == message@
                &&& it.style == ToastStyle::Info
                &&& it.auto_style
                &&& it.expires_at_ms == expiry_of((ToastDismissPolicy::ManualOrTimeout { duration_ms }), it.created_at_ms)
                &&& it.dismiss_policy == (ToastDismissPolicy::ManualOrTimeout { duration_ms })
            }),
            final(self).wf(),
            final(self).items_view().len() <= final(self).capacity_view(),
    {
        self.push_with_policy(message, ToastDismissPolicy::ManualOrTimeout { duration_ms })
    }

    /// Adds a prepared toast at time `now`: id 0 takes the next id, a
    /// creation time of 0 becomes `now`, a missing expiry comes from the
    /// policy. Drops the oldest beyond the capacity. Returns the id.
    pub fn push_at(&mut self, item: ToastItem, now: i64) -> (id: ToastId)
        requires
            old(self).wf(),
        ensures
            id == if item.id == 0 { old(self).next_id_view() } else { item.id },
            final(self).next_id_view() == if item.id == 0 {
                if old(self).next_id_view() < u64::MAX { (old(self).next_id_view() + 1) as u64 } else { old(self).next_id_view() }
            } else {
                old(self).next_id_view()
            },
            final(self).capacity_view() == old(self).capacity_view(),
            final(self).items_view() == keep_last(old(self).items_view().push(stamped(item, id, now)), old(self).capacity_view() as int),
            final(self).wf(),
            final(self).items_view().len() <= final(self).capacity_view(),
    {
        let mut item = item;
        if item.id == 0 {
            item.id = self.alloc_id();
        }
        if item.created_at_ms == 0 {
            item.created_at_ms = now;
        }
        if item.expires_at_ms.is_none() {
            item.expires_at_ms = item.dismiss_policy.expires_at_ms(item.created_at_ms);
        }
        let id = item.id;
        self.items.push_back(item);
        self.enforce_capacity();
        id
    }

    /// Adds a prepared toast now (see `push_at`).
    pub fn push(&mut self, item: ToastItem) -> (id: ToastId)
        requires
            old(self).wf(),
        ensures
            id == if item.id == 0 { old(self).next_id_view() } else { item.id },
            final(self).next_id_view() == if item.id == 0 {
                if old(self).next_id_view() < u64::MAX { (old(self).next_id_view() + 1) as u64 } else { old(self).next_id_view() }
            } else {
                old(self).next_id_view()
            },
            final(self).capacity_view() == old(self).capacity_view(),
            exists|now: i64| final(self).items_view() == keep_last(
                old(self).items_view().push(#[trigger] stamped(item, id, now)),
                old(self).capacity_view() as int,
            ),
            final(self).wf(),
            final(self).items_view().len() <= final(self).capacity_view(),
    {
        let now = current_time_ms();
        self.push_at(item, now)
    }

    /// Removes the first toast with id `id`; returns whether there was one.
    pub fn dismiss(&mut self, id: ToastId) -> (removed: bool)
        ensures
            removed == exists|j: int| 0 <= j < old(self).items_view().len() && (#[trigger] old(self).items_view()[j]).id == id,
            removed ==> exists|p: usize| id_at(old(self).items_view(), id, Some(p))
                && final(self).items_view() == old(self).items_view().remove(p as int),
            !removed ==> final(self).items_view() == old(self).items_view(),
            final(self).next_id_view() == old(self).next_id_view(),
            final(self).capacity_view() == old(self).capacity_view(),
            old(self).wf() ==> final(self).wf(),
    {
        match find_toast(&self.items, id) {
            Some(pos) => {
                self.items.remove(pos);
                assert(id_at(old(self).items@, id, Some(pos)));
                true
            },
            None => false,
        }
    }

    /// Removes the newest toast; returns whether there was one.
    pub fn dismiss_top(&mut self) -> (removed: bool)
        ensures
            removed == (old(self).items_view().len() > 0),
            final(self).items_view() == if removed { old(self).items_view().drop_last() } else { old(self).items_view() },
            final(self).next_id_view() == old(self).next_id_view(),
            final(self).capacity_view() == old(self).capacity_view(),
            old(self).wf() ==> final(self).wf(),
    {
        let r = self.items.pop_back();
        assert(r is Some ==> self.items@ =~= old(self).items@.drop_last());
        r.is_some()
    }

    /// Removes every toast.
    pub fn dismiss_all(&mut self)
        ensures
            final(self).items_view().len() == 0,
            final(self).next_id_view() == old(self).next_id_view(),
            final(self).capacity_view() == old(self).capacity_view(),
            old(self).wf() ==> final(self).wf(),
    {
        self.items.clear();
    }

    /// Removes the toasts expired at `now_ms` (those with an expiry not
    /// after it), keeping the order of the others.
    pub fn clear_expired_at(&mut self, now_ms: i64)
        ensures
            final(self).items_view() == unexpired(old(self).items_view(), now_ms, old(self).items_view().len() as int),
            final(self).next_id_view() == old(self).next_id_view(),
            final(self).capacity_view() == old(self).capacity_view(),
            old(self).wf() ==> final(self).wf(),
    {
        let ghost orig = self.items@;
        let mut kept: VecDeque<ToastItem> = VecDeque::new();
        let n = self.items.len();
        let mut i: usize = 0;
        while i < n
            invariant
                i <= n,
                n == orig.len(),
                self.items@ == orig.subrange(i as int, n as int),
                self.next_id == old(self).next_id,
                self.capacity == old(self).capacity,
                orig == old(self).items@,
                kept@ == unexpired(orig, now_ms, i as int),
                kept@.len() <= i,
            decreases n - i,
        {
            let t = self.items.pop_front().unwrap();
            assert(t == orig[i as int]);
            let keep = match t.expires_at_ms {
                Some(e) => now_ms < e,
                None => true,
            };
            if keep {
                kept.push_back(t);
            }
            assert(self.items@ =~= orig.subrange(i + 1, n as int));
            i = i + 1;
        }
        self.items = kept;
    }

    /// Removes the toasts expired now.
    pub fn clear_expired(&mut self)
        ensures
            exists|now: i64| final(self).items_view() == #[trigger] unexpired(old(self).items_view(), now, old(self).items_view().len() as int),
            final(self).next_id_view() == old(self).next_id_view(),
            final(self).capacity_view() == old(self).capacity_view(),
            old(self).wf() ==> final(self).wf(),
    {
        let now = current_time_ms();
        self.clear_expired_at(now);
    }
}

impl Default for ToastStackState {
    fn default() -> (s: Self)
        ensures
            s.items_view().len() == 0,
            s.next_id_view() == 1,
            s.capacity_view() == 5,
            s.wf(),
    {
        Self::new()
    }
}


/// The ids of `items` in the order `order` shows them.
pub open spec fn ordered_ids(items: Seq<ToastItem>, order: ToastOrder) -> Seq<ToastId> {
    match order {
        ToastOrder::NewestFirst => Seq::new(items.len(), |k: int| items[items.len() - 1 - k].id),
        ToastOrder::OldestFirst => Seq::new(items.len(), |k: int| items[k].id),
    }
}

/// The ids shown under `layout`: in its order, at most its limit.
pub open spec fn visible_ids(items: Seq<ToastItem>, layout: ToastStackLayout) -> Seq<ToastId> {
    let ids = ordered_ids(items, layout.order);
    if ids.len() > layout.max_toasts_visible { ids.take(layout.max_toasts_visible as int) } else { ids }
}

/// The first toast of `items` with id `id`.
pub open spec fn first_with_id(items: Seq<ToastItem>, id: ToastId) -> ToastItem {
    items[(choose|p: usize| id_at(items, id, Some(p))) as int]
}

/// The length of a toast's message in bytes.
pub open spec fn message_len(item: ToastItem) -> int {
    vstd::utf8::encode_utf8(item.message@).len() as int
}

/// The id, width and height of each toast shown in `area`, in order; a
/// toast's size is that of its id's first toast.
pub open spec fn toast_sizes(items: Seq<ToastItem>, layout: ToastStackLayout, area: Rect) -> Seq<(ToastId, u16, u16)> {
    let ids = visible_ids(items, layout);
    Seq::new(ids.len(), |k: int| {
        let sz = toast_size(message_len(first_with_id(items, ids[k])), area.width, layout.max_width, layout.max_height);
        (ids[k], sz.0, sz.1)
    })
}

/// The sizes of the toasts shown stay in range.
pub open spec fn toast_sizes_ok(items: Seq<ToastItem>, layout: ToastStackLayout, area: Rect) -> bool {
    let ids = visible_ids(items, layout);
    forall|k: int| 0 <= k < ids.len() ==> toast_size_ok(#[trigger] message_len(first_with_id(items, ids[k])), area.width, layout.max_width)
}

/// Whether the placement stacks from the top edge.
pub open spec fn is_top(p: ToastPlacement) -> bool {
    p is TopCenter || p is TopLeft || p is TopRight
}

/// The column of a toast `w` wide under `placement`.
pub open spec fn toast_x(area: Rect, w: u16, mx: u16, placement: ToastPlacement) -> u16 {
    match placement {
        ToastPlacement::TopLeft | ToastPlacement::BottomLeft => sat_add16(area.x, mx),
        ToastPlacement::TopRight | ToastPlacement::BottomRight => sat_sub16(sat_sub16(sat_add16(area.x, area.width), mx), w),
        ToastPlacement::TopCenter | ToastPlacement::BottomCenter => (area.x + sat_sub16(area.width, w) / 2) as u16,
    }
}

/// The stacking cursor before toast `k`: the row it starts at from the
/// top, or the row below it from the bottom.
pub open spec fn stack_cursor(sizes: Seq<(ToastId, u16, u16)>, layout: ToastStackLayout, area: Rect, k: nat) -> u16
    decreases k,
{
    if k == 0 {
        if is_top(layout.placement) {
            sat_add16(sat_add16(area.y, layout.margin.1), layout.edge_offset_y)
        } else {
            sat_sub16(sat_add16(area.y, area.height), layout.margin.1)
        }
    } else {
        let prev = stack_cursor(sizes, layout, area, (k - 1) as nat);
        let h = sizes[k - 1].2;
        if is_top(layout.placement) {
            sat_add16(sat_add16(prev, h), layout.gap_y)
        } else {
            sat_sub16(sat_sub16(prev, h), layout.gap_y)
        }
    }
}

/// Whether toast `k` fits in `area` at its cursor.
pub open spec fn stack_fits(sizes: Seq<(ToastId, u16, u16)>, layout: ToastStackLayout, area: Rect, k: nat) -> bool {
    let c = stack_cursor(sizes, layout, area, k);
    let h = sizes[k as int].2;
    if is_top(layout.placement) {
        sat_add16(c, h) <= sat_add16(area.y, area.height)
    } else {
        c >= sat_add16(area.y, h)
    }
}

/// The rectangle of toast `k`.
pub open spec fn stack_rect(sizes: Seq<(ToastId, u16, u16)>, layout: ToastStackLayout, area: Rect, k: nat) -> Rect {
    let c = stack_cursor(sizes, layout, area, k);
    let (w, h) = (sizes[k as int].1, sizes[k as int].2);
    let y = if is_top(layout.placement) { c } else { sat_sub16(c, h) };
    Rect::new_spec(toast_x(area, w, layout.margin.0, layout.placement), y, w, h)
}

/// The first toast from `k` on that does not fit (the count when all do).
pub open spec fn first_misfit(sizes: Seq<(ToastId, u16, u16)>, layout: ToastStackLayout, area: Rect, k: nat) -> nat
    decreases sizes.len() - k,
{
    if k >= sizes.len() {
        sizes.len()
    } else if !stack_fits(sizes, layout, area, k) {
        k
    } else {
        first_misfit(sizes, layout, area, k + 1)
    }
}

/// The toasts drawn in `area`, with their rectangles: in order, up to the
/// first that does not fit; none in an empty area.
pub open spec fn stack_rects(items: Seq<ToastItem>, layout: ToastStackLayout, area: Rect) -> Seq<(ToastId, Rect)> {
    if area.width == 0 || area.height == 0 {
        Seq::empty()
    } else {
        let sizes = toast_sizes(items, layout, area);
        Seq::new(first_misfit(sizes, layout, area, 0), |k: int| (sizes[k].0, stack_rect(sizes, layout, area, k as nat)))
    }
}

/// Whether cell (`x`, `y`) lies in `r`.
pub open spec fn rect_has(r: Rect, x: u16, y: u16) -> bool {
    x >= r.x && x < sat_add16(r.x, r.width) && y >= r.y && y < sat_add16(r.y, r.height)
}

/// The id of the first rectangle holding (`x`, `y`).
pub open spec fn first_hit_id(rects: Seq<(ToastId, Rect)>, x: u16, y: u16) -> Option<ToastId>
    decreases rects.len(),
{
    if rects.len() == 0 {
        None
    } else if rect_has(rects[0].1, x, y) {
        Some(rects[0].0)
    } else {
        first_hit_id(rects.drop_first(), x, y)
    }
}

/// Which of the first `n` toasts are kept does not depend on what follows
/// them.
proof fn lemma_unexpired_prefix(items: Seq<ToastItem>, it: ToastItem, t: i64, n: int)
    requires
        n <= items.len(),
    ensures
        unexpired(items.push(it), t, n) == unexpired(items, t, n),
    decreases n,
{
    if n > 0 {
        lemma_unexpired_prefix(items, it, t, n - 1);
        assert(items.push(it)[n - 1] == items[n - 1]);
    }
}

/// An auto-dismissed toast lasts exactly its duration: made at `now` for
/// `d` milliseconds (where `now + d` is in range), clearing the expired
/// toasts before `now + d` keeps it, after the toasts before it, and
/// clearing at or after `now + d` drops it, leaving the others as they
/// would be without it. A manual toast is never dropped.
pub proof fn auto_toast_lasts_its_duration(items: Seq<ToastItem>, it: ToastItem, d: i64, now: i64, t: i64)
    requires
        i64::MIN <= now + d <= i64::MAX,
        it.expires_at_ms == expiry_of(it.dismiss_policy, now),
    ensures
        it.dismiss_policy == (ToastDismissPolicy::Auto { duration_ms: d }) ==> {
            &&& it.expires_at_ms == Some((now + d) as i64)
            &&& t < now + d ==> unexpired(items.push(it), t, items.len() + 1int) == unexpired(items, t, items.len() as int).push(it)
            &&& t >= now + d ==> unexpired(items.push(it), t, items.len() + 1int) == unexpired(items, t, items.len() as int)
        },
        it.dismiss_policy == ToastDismissPolicy::Manual ==> unexpired(items.push(it), t, items.len() + 1int)
            == unexpired(items, t, items.len() as int).push(it),
{
    lemma_unexpired_prefix(items, it, t, items.len() as int);
    assert(items.push(it)[items.len() as int] == it);
}

/// Every toast's id is below `n`.
pub open spec fn ids_below(items: Seq<ToastItem>, n: ToastId) -> bool {
    forall|j: int| 0 <= j < items.len() ==> (#[trigger] items[j]).id < n
}

/// Ids that a stack hands out are fresh and increasing: where every toast's
/// id is below the next id (as in a new stack, whose toasts all took their
/// ids from it) and the next id is not the largest, a toast pushed with the
/// next id has an id above every toast already there, and after the push
/// (which may drop the oldest) every id is below the advanced next id.
pub proof fn pushed_ids_are_fresh(items: Seq<ToastItem>, next: ToastId, item: ToastItem, cap: int)
    requires
        ids_below(items, next),
        next < u64::MAX,
        item.id == next,
        cap >= 1,
    ensures
        forall|j: int| 0 <= j < items.len() ==> (#[trigger] items[j]).id < item.id,
        ids_below(keep_last(items.push(item), cap), (next + 1) as u64),
{
    let all = items.push(item);
    assert(ids_below(all, (next + 1) as u64)) by {
        assert forall|j: int| 0 <= j < all.len() implies (#[trigger] all[j]).id < (next + 1) as u64 by {
            if j < items.len() {
                assert(all[j] == items[j]);
            }
        }
    }
    let kept = keep_last(all, cap);
    assert forall|j: int| 0 <= j < kept.len() implies (#[trigger] kept[j]).id < (next + 1) as u64 by {
        if all.len() > cap {
            assert(kept[j] == all[all.len() - cap + j]);
        }
    }
}

/// Toast `k` before the first misfit from `i` fits, and is a toast.
proof fn lemma_before_misfit(sizes: Seq<(ToastId, u16, u16)>, layout: ToastStackLayout, area: Rect, i: nat, k: nat)
    requires
        i <= k,
        k < first_misfit(sizes, layout, area, i),
    ensures
        k < sizes.len(),
        stack_fits(sizes, layout, area, k),
    decreases sizes.len() - i,
{
    if i < sizes.len() && stack_fits(sizes, layout, area, i) && k > i {
        lemma_before_misfit(sizes, layout, area, i + 1, k);
    }
}

/// From the top, the cursor never moves up, and every toast ends at or
/// above the cursor of any later one.
proof fn lemma_top_cursor(sizes: Seq<(ToastId, u16, u16)>, layout: ToastStackLayout, area: Rect, j: nat, k: nat)
    requires
        is_top(layout.placement),
        j < k,
        k <= sizes.len(),
    ensures
        sat_add16(stack_cursor(sizes, layout, area, j), sizes[j as int].2) <= stack_cursor(sizes, layout, area, k),
    decreases k,
{
    if k > j + 1 {
        lemma_top_cursor(sizes, layout, area, j, (k - 1) as nat);
    }
}

/// From the bottom, the cursor never moves down.
proof fn lemma_bottom_cursor(sizes: Seq<(ToastId, u16, u16)>, layout: ToastStackLayout, area: Rect, j: nat, k: nat)
    requires
        !is_top(layout.placement),
        j <= k,
        k <= sizes.len(),
    ensures
        stack_cursor(sizes, layout, area, k) <= stack_cursor(sizes, layout, area, j),
    decreases k,
{
    if k > j {
        lemma_bottom_cursor(sizes, layout, area, j, (k - 1) as nat);
    }
}

/// From the top, the cursor never moves above where it starts.
proof fn lemma_top_cursor_from_start(sizes: Seq<(ToastId, u16, u16)>, layout: ToastStackLayout, area: Rect, k: nat)
    requires
        is_top(layout.placement),
        k <= sizes.len(),
    ensures
        stack_cursor(sizes, layout, area, 0) <= stack_cursor(sizes, layout, area, k),
{
    if k > 0 {
        lemma_top_cursor(sizes, layout, area, 0, k);
    }
}

/// The toasts drawn are the first toasts shown, in the layout's order, and
/// each lies within the rows of the area (where the area fits in `u16`
/// coordinates and, stacking from the bottom, a toast of the largest height
/// fits below the area's top row).
pub proof fn stacked_toasts_stay_in_area(items: Seq<ToastItem>, layout: ToastStackLayout, area: Rect, k: int)
    requires
        area.fits(),
        !is_top(layout.placement) ==> area.y + layout.max_height <= u16::MAX,
        0 <= k < stack_rects(items, layout, area).len(),
    ensures
        stack_rects(items, layout, area)[k].0 == visible_ids(items, layout)[k],
        area.y <= stack_rects(items, layout, area)[k].1.y,
        sat_add16(stack_rects(items, layout, area)[k].1.y, stack_rects(items, layout, area)[k].1.height)
            <= area.y + area.height,
{
    let sizes = toast_sizes(items, layout, area);
    lemma_before_misfit(sizes, layout, area, 0, k as nat);
    let r = stack_rect(sizes, layout, area, k as nat);
    assert(stack_rects(items, layout, area)[k] == (sizes[k].0, r));
    let c = stack_cursor(sizes, layout, area, k as nat);
    let h = sizes[k].2;
    if is_top(layout.placement) {
        lemma_top_cursor_from_start(sizes, layout, area, k as nat);
        assert(r.y == c);
        assert(sat_add16(r.y, r.height) == sat_add16(c, h));
    } else {
        lemma_bottom_cursor(sizes, layout, area, 0, k as nat);
        assert(h <= layout.max_height);
        assert(c >= area.y + h);
        assert(r.y == c - h);
    }
}

/// Toasts never overlap: no cell lies in the rectangles of two different
/// toasts drawn in the same area.
pub proof fn stacked_toasts_do_not_overlap(items: Seq<ToastItem>, layout: ToastStackLayout, area: Rect, j: int, k: int, x: u16, y: u16)
    requires
        0 <= j < k < stack_rects(items, layout, area).len(),
    ensures
        !(rect_has(stack_rects(items, layout, area)[j].1, x, y) && rect_has(stack_rects(items, layout, area)[k].1, x, y)),
{
    let sizes = toast_sizes(items, layout, area);
    lemma_before_misfit(sizes, layout, area, 0, j as nat);
    lemma_before_misfit(sizes, layout, area, 0, k as nat);
    let rj = stack_rect(sizes, layout, area, j as nat);
    let rk = stack_rect(sizes, layout, area, k as nat);
    assert(stack_rects(items, layout, area)[j].1 == rj);
    assert(stack_rects(items, layout, area)[k].1 == rk);
    let cj = stack_cursor(sizes, layout, area, j as nat);
    let ck = stack_cursor(sizes, layout, area, k as nat);
    if is_top(layout.placement) {
        lemma_top_cursor(sizes, layout, area, j as nat, k as nat);
        assert(sat_add16(rj.y, rj.height) <= rk.y);
    } else {
        lemma_bottom_cursor(sizes, layout, area, (j + 1) as nat, k as nat);
        assert(ck <= sat_sub16(cj, sizes[j].2));
        assert(sat_add16(rk.y, rk.height) <= rj.y);
    }
}

/// Two positions both first with an id are the same.
proof fn lemma_id_at_unique(items: Seq<ToastItem>, id: ToastId, p: usize, q: usize)
    requires
        id_at(items, id, Some(p)),
        id_at(items, id, Some(q)),
    ensures
        p == q,
{
    if p < q {
        assert(items[p as int].id != id);
    } else if q < p {
        assert(items[q as int].id != id);
    }
}

/// The column of a toast `w` wide under `placement`.
fn compute_x(area: Rect, w: u16, mx: u16, placement: ToastPlacement) -> (x: u16)
    requires
        area.fits(),
    ensures
        x == toast_x(area, w, mx, placement),
{
    match placement {
        ToastPlacement::TopLeft | ToastPlacement::BottomLeft => area.x.saturating_add(mx),
        ToastPlacement::TopRight | ToastPlacement::BottomRight => area.x.saturating_add(area.width).saturating_sub(mx).saturating_sub(w),
        ToastPlacement::TopCenter | ToastPlacement::BottomCenter => area.x + area.width.saturating_sub(w) / 2,
    }
}

/// The ids shown under `layout` (see `visible_ids`).
fn shown_ids(items: &VecDeque<ToastItem>, layout: ToastStackLayout) -> (ids: Vec<ToastId>)
    ensures
        ids@ == visible_ids(items@, layout),
{
    let n = items.len();
    let m = if n > layout.max_toasts_visible { layout.max_toasts_visible } else { n };
    let mut ids: Vec<ToastId> = Vec::new();
    let mut k: usize = 0;
    while k < m
        invariant
            m <= n,
            n == items@.len(),
            m == (if n > layout.max_toasts_visible { layout.max_toasts_visible } else { n }),
            k <= m,
            ids@ == ordered_ids(items@, layout.order).take(k as int),
        decreases m - k,
    {
        let id = match layout.order {
            ToastOrder::NewestFirst => items[n - 1 - k].id,
            ToastOrder::OldestFirst => items[k].id,
        };
        ids.push(id);
        k = k + 1;
        assert(ids@ =~= ordered_ids(items@, layout.order).take(k as int));
    }
    assert(ids@ =~= visible_ids(items@, layout));
    ids
}

/// The sizes of the toasts shown (see `toast_sizes`).
fn shown_sizes(items: &VecDeque<ToastItem>, layout: ToastStackLayout, area: Rect) -> (sizes: Vec<(ToastId, u16, u16)>)
    requires
        toast_sizes_ok(items@, layout, area),
    ensures
        sizes@ == toast_sizes(items@, layout, area),
{
    let ids = shown_ids(items, layout);
    let mut sizes: Vec<(ToastId, u16, u16)> = Vec::new();
    let mut k: usize = 0;
    while k < ids.len()
        invariant
            k <= ids@.len(),
            ids@ == visible_ids(items@, layout),
            toast_sizes_ok(items@, layout, area),
            sizes@.len() == k,
            forall|j: int| 0 <= j < k ==> sizes@[j] == #[trigger] toast_sizes(items@, layout, area)[j],
        decreases ids@.len() - k,
    {
        let id = ids[k];
        proof {
            let ghost j = if layout.order is NewestFirst { items@.len() - 1 - k } else { k as int };
            assert(items@[j].id == id);
        }
        match find_toast(items, id) {
            Some(p) => {
                proof {
                    let c = choose|q: usize| id_at(items@, id, Some(q));
                    lemma_id_at_unique(items@, id, p, c);
                    assert(first_with_id(items@, id) == items@[p as int]);
                    assert(toast_size_ok(message_len(first_with_id(items@, ids@[k as int])), area.width, layout.max_width));
                }
                let len = items[p].message.as_str().as_bytes().len();
                let (w, h) = toast_dimensions(len, area.width, layout.max_width, layout.max_height);
                sizes.push((id, w, h));
            },
            None => {
                proof {
                    let ghost j = if layout.order is NewestFirst { items@.len() - 1 - k } else { k as int };
                    assert(items@[j].id == id);
                }
                assert(false);
            },
        }
        k = k + 1;
    }
    assert(sizes@ =~= toast_sizes(items@, layout, area));
    sizes
}

/// A stack of toasts drawn from a state under a layout.
#[derive(Debug, Clone)]
pub struct ToastStack<'a> {
    pub state: &'a ToastStackState,
    pub layout: ToastStackLayout,
}

impl<'a> ToastStack<'a> {
    /// A stack over `state` with the default layout.
    pub fn new(state: &'a ToastStackState) -> (s: Self)
        ensures
            s.state == state,
            s.layout == default_layout(),
    {
        ToastStack { state, layout: ToastStackLayout::default() }
    }

    /// Sets the layout.
    pub fn layout(self, layout: ToastStackLayout) -> (s: Self)
        ensures
            s.state == self.state,
            s.layout == layout,
    {
        ToastStack { layout, ..self }
    }

    /// The toasts drawn in `area` and their rectangles (see `stack_rects`).
    pub fn compute_rects(&self, area: Rect) -> (r: Vec<(ToastId, Rect)>)
        requires
            area.fits(),
            area.width > 0 && area.height > 0 ==> toast_sizes_ok(self.state.items_view(), self.layout, area),
        ensures
            r@ == stack_rects(self.state.items_view(), self.layout, area),
    {
        compute_toast_rects(area, self.state, self.layout)
    }

    /// The toast drawn at cell (`x`, `y`) of `area`, the first in drawing
    /// order where several hold it.
    pub fn hit_test(&self, area: Rect, x: u16, y: u16) -> (r: Option<ToastId>)
        requires
            area.fits(),
            area.width > 0 && area.height > 0 ==> toast_sizes_ok(self.state.items_view(), self.layout, area),
        ensures
            r == first_hit_id(stack_rects(self.state.items_view(), self.layout, area), x, y),
    {
        let rects = self.compute_rects(area);
        assert(rects@.subrange(0, rects@.len() as int) =~= rects@);
        let mut i: usize = 0;
        while i < rects.len()
            invariant
                i <= rects@.len(),
                first_hit_id(rects@.subrange(i as int, rects@.len() as int), x, y) == first_hit_id(rects@, x, y),
                rects@ == stack_rects(self.state.items_view(), self.layout, area),
            decreases rects@.len() - i,
        {
            let (id, r) = rects[i];
            assert(rects@.subrange(i as int + 1, rects@.len() as int) =~= rects@.subrange(i as int, rects@.len() as int).drop_first());
            assert(rects@.subrange(i as int, rects@.len() as int)[0] == rects@[i as int]);
            if x >= r.x && x < r.x.saturating_add(r.width) && y >= r.y && y < r.y.saturating_add(r.height) {
                return Some(id);
            }
            i = i + 1;
        }
        None
    }
}

/// The toasts drawn in `area` (see `stack_rects`).
fn compute_toast_rects(area: Rect, state: &ToastStackState, layout: ToastStackLayout) -> (r: Vec<(ToastId, Rect)>)
    requires
        area.fits(),
        area.width > 0 && area.height > 0 ==> toast_sizes_ok(state.items_view(), layout, area),
    ensures
        r@ == stack_rects(state.items_view(), layout, area),
{
    if area.width == 0 || area.height == 0 {
        return Vec::new();
    }
    let sizes = shown_sizes(&state.items, layout, area);
    let (mx, my) = layout.margin;
    let top = match layout.placement {
        ToastPlacement::TopCenter | ToastPlacement::TopLeft | ToastPlacement::TopRight => true,
        _ => false,
    };
    let bottom_edge = area.y.saturating_add(area.height);
    let mut cursor: u16 = if top {
        area.y.saturating_add(my).saturating_add(layout.edge_offset_y)
    } else {
        bottom_edge.saturating_sub(my)
    };
    let ghost s = sizes@;
    let mut rects: Vec<(ToastId, Rect)> = Vec::new();
    let mut k: usize = 0;
    while k < sizes.len()
        invariant_except_break
            first_misfit(s, layout, area, k as nat) == first_misfit(s, layout, area, 0),
        invariant
            s == sizes@,
            area.fits(),
            top == is_top(layout.placement),
            bottom_edge == sat_add16(area.y, area.height),
            (mx, my) == layout.margin,
            k <= s.len(),
            cursor == stack_cursor(s, layout, area, k as nat),
            rects@.len() == k,
            forall|j: int| 0 <= j < k ==> rects@[j] == (s[j].0, stack_rect(s, layout, area, j as nat)),
        ensures
            first_misfit(s, layout, area, 0) == k,
        decreases s.len() - k,
    {
        let (id, w, h) = sizes[k];
        let fits = if top { cursor.saturating_add(h) <= bottom_edge } else { cursor >= area.y.saturating_add(h) };
        if !fits {
            break;
        }
        let y = if top { cursor } else { cursor.saturating_sub(h) };
        let x = compute_x(area, w, mx, layout.placement);
        rects.push((id, Rect::new(x, y, w, h)));
        cursor = if top { y.saturating_add(h).saturating_add(layout.gap_y) } else { y.saturating_sub(layout.gap_y) };
        k = k + 1;
    }
    assert(rects@ =~= stack_rects(state.items_view(), layout, area));
    rects
}

} // verus!
