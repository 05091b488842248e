//! Focus management: Tab / Shift+Tab navigation between focusable elements,
//! in registration order.
use vstd::prelude::*;
use vstd::std_specs::cmp::PartialEqSpec;

verus! {

/// Identifier of a focusable component.
#[derive(Debug, Clone, Copy, PartialEq, Eq, Structural, Hash, Default)]
pub struct FocusId {
    pub value: usize,
}

impl FocusId {
    /// A focus identifier with the given number.
    pub fn new(id: usize) -> (f: FocusId)
        ensures
            f.value == id,
    {
        FocusId { value: id }
    }

    /// The number of this identifier.
    pub fn id(&self) -> (r: usize)
        ensures
            r == self.value,
    {
        self.value
    }
}

/// A component that can receive keyboard focus.
pub trait Focusable {
    /// The component's focus identifier.
    fn focus_id(&self) -> FocusId;

    /// Whether the component has focus.
    fn is_focused(&self) -> bool;

    /// Gives or takes focus.
    fn set_focused(&mut self, focused: bool);
}

/// `x` is equal, in the sense of `T`'s `==`, to the element at `i`.
pub open spec fn matches_at<T: PartialEq>(s: Seq<T>, i: int, x: T) -> bool {
    s[i].eq_spec(&x)
}

/// The first index whose element equals `x` (as `Iterator::position`).
pub open spec fn first_match<T: PartialEq>(s: Seq<T>, x: T, r: Option<usize>) -> bool {
    match r {
        Some(i) => {
            &&& i < s.len()
            &&& matches_at(s, i as int, x)
            &&& forall|j: int| 0 <= j < i ==> !matches_at(s, j, x)
        },
        None => forall|j: int| 0 <= j < s.len() ==> !matches_at(s, j, x),
    }
}

/// Index of the first element of `v` equal to `x`.
pub fn position_of<T: PartialEq>(v: &[T], x: &T) -> (r: Option<usize>)
    ensures
        T::obeys_eq_spec() ==> first_match(v@, *x, r),
        r matches Some(i) ==> i < v@.len(),
{
    let mut i: usize = 0;
    while i < v.len()
        invariant
            i <= v.len(),
            T::obeys_eq_spec() ==> forall|j: int| 0 <= j < i ==> !matches_at(v@, j, *x),
        decreases v.len() - i,
    {
        if v[i] == *x {
            return Some(i);
        }
        i = i + 1;
    }
    None
}

/// Focus manager for Tab navigation.
///
/// Holds the focusable elements in registration order and the index of the
/// focused one, if any.
#[derive(Debug, Clone)]
pub struct FocusManager<T = usize> {
    elements: Vec<T>,
    current_index: Option<usize>,
}

impl<T: PartialEq + Clone> FocusManager<T> {
    /// The registered elements, in navigation order.
    pub closed spec fn elements_view(&self) -> Seq<T> {
        self.elements@
    }

    /// The focused index.
    pub closed spec fn focus_view(&self) -> Option<usize> {
        self.current_index
    }

    /// The focus index is in bounds, the elements are counted in `usize`,
    /// and no element equals an earlier one.
    pub open spec fn wf(&self) -> bool {
        &&& self.elements_view().len() <= usize::MAX
        &&& (self.focus_view() matches Some(i) ==> i < self.elements_view().len())
        &&& (T::obeys_eq_spec() ==> forall|i: int, j: int|
            0 <= i < j < self.elements_view().len() ==> !matches_at(
                self.elements_view(),
                i,
                self.elements_view()[j],
            ))
    }

    /// The focused element.
    pub open spec fn current_spec(&self) -> Option<T> {
        match self.focus_view() {
            Some(i) => Some(self.elements_view()[i as int]),
            None => None,
        }
    }

    /// An empty focus manager.
    pub fn new() -> (m: Self)
        ensures
            m.wf(),
            m.elements_view() == Seq::<T>::empty(),
            m.focus_view() == None::<usize>,
    {
        FocusManager { elements: Vec::new(), current_index: None }
    }

    /// An empty focus manager with room for `capacity` elements.
    pub fn with_capacity(capacity: usize) -> (m: Self)
        ensures
            m.wf(),
            m.elements_view() == Seq::<T>::empty(),
            m.focus_view() == None::<usize>,
    {
        FocusManager { elements: Vec::with_capacity(capacity), current_index: None }
    }

    /// Registers an element at the end of the navigation order. An element
    /// equal to a registered one is ignored. The first element registered
    /// receives focus.
    pub fn register(&mut self, element: T)
        requires
            old(self).wf(),
        ensures
            final(self).wf(),
            T::obeys_eq_spec() ==> (final(self).elements_view(), final(self).focus_view())
                == after_register(old(self).elements_view(), old(self).focus_view(), element),
    {
        let pos = position_of(&self.elements, &element);
        if pos.is_none() {
            let ghost old_elements = self.elements@;
            self.elements.push(element);
            let count = self.elements.len();
            assert(count == self.elements@.len());
            if self.current_index.is_none() {
                self.current_index = Some(0);
            }
            proof {
                if T::obeys_eq_spec() {
                    assert forall|i: int, j: int|
                        0 <= i < j < self.elements@.len() implies !matches_at(
                        self.elements@,
                        i,
                        self.elements@[j],
                    ) by {
                        assert(self.elements@[i] == old_elements[i]);
                        if j < old_elements.len() {
                            assert(self.elements@[j] == old_elements[j]);
                            assert(!matches_at(old_elements, i, old_elements[j]));
                        } else {
                            assert(self.elements@[j] == element);
                            assert(!matches_at(old_elements, i, element));
                        }
                    }
                }
            }
        } else {
            proof {
                if T::obeys_eq_spec() {
                    let i = pos.unwrap() as int;
                    assert(matches_at(self.elements@, i, element));
                }
            }
        }
    }

    /// Registers each element in turn, as `register` does.
    pub fn register_all(&mut self, elements: Vec<T>)
        requires
            old(self).wf(),
        ensures
            final(self).wf(),
            T::obeys_eq_spec() ==> (final(self).elements_view(), final(self).focus_view())
                == after_register_all(old(self).elements_view(), old(self).focus_view(), elements@),
    {
        let mut rest = elements;
        let ghost all = rest@;
        let ghost mut k: int = 0;
        while rest.len() > 0
            invariant
                self.wf(),
                0 <= k <= all.len(),
                rest@ == all.subrange(k, all.len() as int),
                T::obeys_eq_spec() ==> (self.elements_view(), self.focus_view())
                    == after_register_all(
                    old(self).elements_view(),
                    old(self).focus_view(),
                    all.subrange(0, k),
                ),
            decreases rest.len(),
        {
            let e = rest.remove(0);
            proof {
                assert(e == all[k]);
                assert(all.subrange(0, k + 1).drop_last() =~= all.subrange(0, k));
                assert(all.subrange(0, k + 1).last() == all[k]);
            }
            self.register(e);
            proof {
                k = k + 1;
                assert(rest@ =~= all.subrange(k, all.len() as int));
            }
        }
        proof {
            assert(all.subrange(0, k) =~= all);
        }
    }

    /// Removes every element; nothing has focus.
    pub fn clear(&mut self)
        ensures
            final(self).wf(),
            final(self).elements_view() == Seq::<T>::empty(),
            final(self).focus_view() == None::<usize>,
    {
        self.elements.clear();
        self.current_index = None;
    }

    /// The focused element, if any.
    pub fn current(&self) -> (r: Option<&T>)
        requires
            self.wf(),
        ensures
            match r {
                Some(x) => self.current_spec() == Some(*x),
                None => self.current_spec() is None,
            },
    {
        match self.current_index {
            Some(i) => Some(&self.elements[i]),
            None => None,
        }
    }

    /// The index of the focused element, if any.
    pub fn current_index(&self) -> (r: Option<usize>)
        ensures
            r == self.focus_view(),
    {
        self.current_index
    }

    /// Whether the focused element equals `element`.
    pub fn is_focused(&self, element: &T) -> (b: bool)
        requires
            self.wf(),
        ensures
            T::obeys_eq_spec() ==> b == (match self.current_spec() {
                Some(c) => c.eq_spec(element),
                None => false,
            }),
    {
        match self.current_index {
            Some(i) => self.elements[i] == *element,
            None => false,
        }
    }

    /// Moves focus to the next element, wrapping from the last to the first.
    /// With no focus, the first element receives it.
    pub fn next(&mut self)
        requires
            old(self).wf(),
        ensures
            final(self).wf(),
            final(self).elements_view() == old(self).elements_view(),
            final(self).focus_view() == next_index(
                old(self).focus_view(),
                old(self).elements_view().len(),
            ),
    {
        if self.elements.len() == 0 {
            return;
        }
        self.current_index = Some(
            match self.current_index {
                Some(i) => (i + 1) % self.elements.len(),
                None => 0,
            },
        );
    }

    /// Moves focus to the previous element, wrapping from the first to the
    /// last. With no focus, the first element receives it.
    pub fn prev(&mut self)
        requires
            old(self).wf(),
        ensures
            final(self).wf(),
            final(self).elements_view() == old(self).elements_view(),
            final(self).focus_view() == prev_index(
                old(self).focus_view(),
                old(self).elements_view().len(),
            ),
    {
        if self.elements.len() == 0 {
            return;
        }
        self.current_index = Some(
            match self.current_index {
                Some(i) => if i == 0 {
                    self.elements.len() - 1
                } else {
                    i - 1
                },
                None => 0,
            },
        );
    }

    /// Focuses the first element equal to `element`; focus is unchanged when
    /// there is none.
    pub fn set(&mut self, element: T)
        requires
            old(self).wf(),
        ensures
            final(self).wf(),
            final(self).elements_view() == old(self).elements_view(),
            T::obeys_eq_spec() ==> {
                let r = final(self).focus_view();
                if exists|i: int|
                    0 <= i < old(self).elements_view().len() && matches_at(
                        old(self).elements_view(),
                        i,
                        element,
                    ) {
                    r matches Some(k) && first_match(old(self).elements_view(), element, Some(k))
                } else {
                    r == old(self).focus_view()
                }
            },
    {
        let pos = position_of(&self.elements, &element);
        if let Some(idx) = pos {
            self.current_index = Some(idx);
        }
    }

    /// Focuses the element at `index`; focus is unchanged when it is out of
    /// bounds.
    pub fn set_index(&mut self, index: usize)
        requires
            old(self).wf(),
        ensures
            final(self).wf(),
            final(self).elements_view() == old(self).elements_view(),
            final(self).focus_view() == (if index < old(self).elements_view().len() {
                Some(index)
            } else {
                old(self).focus_view()
            }),
    {
        if index < self.elements.len() {
            self.current_index = Some(index);
        }
    }

    /// Focuses the first element, if there is one.
    pub fn first(&mut self)
        requires
            old(self).wf(),
        ensures
            final(self).wf(),
            final(self).elements_view() == old(self).elements_view(),
            final(self).focus_view() == (if old(self).elements_view().len() > 0 {
                Some(0usize)
            } else {
                old(self).focus_view()
            }),
    {
        if self.elements.len() > 0 {
            self.current_index = Some(0);
        }
    }

    /// Focuses the last element, if there is one.
    pub fn last(&mut self)
        requires
            old(self).wf(),
        ensures
            final(self).wf(),
            final(self).elements_view() == old(self).elements_view(),
            final(self).focus_view() == (if old(self).elements_view().len() > 0 {
                Some((old(self).elements_view().len() - 1) as usize)
            } else {
                old(self).focus_view()
            }),
    {
        if self.elements.len() > 0 {
            self.current_index = Some(self.elements.len() - 1);
        }
    }

    /// Removes focus; no element is focused.
    pub fn unfocus(&mut self)
        requires
            old(self).wf(),
        ensures
            final(self).wf(),
            final(self).elements_view() == old(self).elements_view(),
            final(self).focus_view() == None::<usize>,
    {
        self.current_index = None;
    }

    /// Whether some element is focused.
    pub fn has_focus(&self) -> (b: bool)
        ensures
            b == self.focus_view() is Some,
    {
        self.current_index.is_some()
    }

    /// The number of registered elements.
    pub fn len(&self) -> (n: usize)
        ensures
            n == self.elements_view().len(),
    {
        self.elements.len()
    }

    /// Whether no element is registered.
    pub fn is_empty(&self) -> (b: bool)
        ensures
            b == (self.elements_view().len() == 0),
    {
        self.elements.len() == 0
    }

    /// The registered elements, in navigation order.
    pub fn elements(&self) -> (r: &[T])
        ensures
            r@ == self.elements_view(),
    {
        self.elements.as_slice()
    }

    /// Removes the first element equal to `element`. When the focused
    /// element is removed, focus stays at the same index (the next element),
    /// or moves to the new last element when the removed one was last. An
    /// index after the removed one moves down by one. Returns whether an
    /// element was removed.
    pub fn remove(&mut self, element: &T) -> (removed: bool)
        requires
            old(self).wf(),
        ensures
            final(self).wf(),
            T::obeys_eq_spec() ==> match position_spec(old(self).elements_view(), *element) {
                Some(idx) => {
                    &&& removed
                    &&& final(self).elements_view() == old(self).elements_view().remove(idx as int)
                    &&& final(self).focus_view() == focus_after_remove(
                        old(self).focus_view(),
                        idx,
                        old(self).elements_view().len(),
                    )
                },
                None => !removed && *final(self) == *old(self),
            },
    {
        let pos = position_of(&self.elements, element);
        match pos {
            Some(idx) => {
                let ghost old_elements = self.elements@;
                self.elements.remove(idx);
                if self.elements.len() == 0 {
                    self.current_index = None;
                } else if let Some(current) = self.current_index {
                    if current == idx {
                        if current >= self.elements.len() {
                            self.current_index = Some(self.elements.len() - 1);
                        }
                    } else if current > idx {
                        self.current_index = Some(current - 1);
                    }
                }
                proof {
                    if T::obeys_eq_spec() {
                        lemma_first_match_unique(old_elements, *element, Some(idx));
                        assert forall|i: int, j: int|
                            0 <= i < j < self.elements@.len() implies !matches_at(
                            self.elements@,
                            i,
                            self.elements@[j],
                        ) by {
                            let oi = if i < idx { i } else { i + 1 };
                            let oj = if j < idx { j } else { j + 1 };
                            assert(self.elements@[i] == old_elements[oi]);
                            assert(self.elements@[j] == old_elements[oj]);
                            assert(0 <= oi < oj < old_elements.len());
                            assert(!matches_at(old_elements, oi, old_elements[oj]));
                        }
                    }
                }
                true
            },
            None => {
                proof {
                    if T::obeys_eq_spec() {
                        lemma_first_match_unique(self.elements@, *element, None);
                    }
                }
                false
            },
        }
    }
}

impl<T: PartialEq + Clone> Default for FocusManager<T> {
    fn default() -> (m: Self)
        ensures
            m.wf(),
            m.elements_view() == Seq::<T>::empty(),
            m.focus_view() == None::<usize>,
    {
        Self::new()
    }
}

/// The first index whose element equals `x`, if any.
pub open spec fn position_spec<T: PartialEq>(s: Seq<T>, x: T) -> Option<usize> {
    if exists|i: int| 0 <= i < s.len() && matches_at(s, i, x) {
        Some(choose|i: usize| first_match(s, x, Some(i)))
    } else {
        None
    }
}

/// The elements and focus after `register(x)`.
pub open spec fn after_register<T: PartialEq>(s: Seq<T>, f: Option<usize>, x: T) -> (
    Seq<T>,
    Option<usize>,
) {
    if exists|i: int| 0 <= i < s.len() && matches_at(s, i, x) {
        (s, f)
    } else {
        (
            s.push(x),
            match f {
                Some(i) => Some(i),
                None => Some(0usize),
            },
        )
    }
}

/// The elements and focus after registering each of `xs` in turn.
pub open spec fn after_register_all<T: PartialEq>(s: Seq<T>, f: Option<usize>, xs: Seq<T>) -> (
    Seq<T>,
    Option<usize>,
)
    decreases xs.len(),
{
    if xs.len() == 0 {
        (s, f)
    } else {
        let p = after_register_all(s, f, xs.drop_last());
        after_register(p.0, p.1, xs.last())
    }
}

/// The focus index after `next`.
pub open spec fn next_index(cur: Option<usize>, len: nat) -> Option<usize> {
    if len == 0 {
        cur
    } else {
        match cur {
            Some(i) => Some(((i + 1) % (len as int)) as usize),
            None => Some(0usize),
        }
    }
}

/// The focus index after `prev`.
pub open spec fn prev_index(cur: Option<usize>, len: nat) -> Option<usize> {
    if len == 0 {
        cur
    } else {
        match cur {
            Some(i) => if i == 0 {
                Some((len - 1) as usize)
            } else {
                Some((i - 1) as usize)
            },
            None => Some(0usize),
        }
    }
}

/// The focus index after removing the element at `idx` from `len` elements.
pub open spec fn focus_after_remove(cur: Option<usize>, idx: usize, len: nat) -> Option<usize> {
    if len == 1 {
        None
    } else {
        match cur {
            Some(c) => if c == idx {
                if c >= len - 1 {
                    Some((len - 2) as usize)
                } else {
                    Some(c)
                }
            } else if c > idx {
                Some((c - 1) as usize)
            } else {
                Some(c)
            },
            None => None,
        }
    }
}

/// `position_spec` names the index that `position_of` finds.
proof fn lemma_first_match_unique<T: PartialEq>(s: Seq<T>, x: T, r: Option<usize>)
    requires
        first_match(s, x, r),
    ensures
        position_spec(s, x) == r,
{
    match r {
        Some(i) => {
            assert(0 <= i < s.len() && matches_at(s, i as int, x));
            let k = choose|k: usize| first_match(s, x, Some(k));
            assert(first_match(s, x, Some(k)));
            if k < i {
                assert(!matches_at(s, k as int, x));
            } else if k > i {
                assert(!matches_at(s, i as int, x));
            }
        },
        None => {},
    }
}

/// Removing an element keeps focus on the same element when another one
/// was removed, and on a valid index in any case: with `s` the elements,
/// `idx` the removed position and `c` the focused one, the new focus
/// points into `s.remove(idx)`, at the element that was focused unless
/// that was the one removed.
pub proof fn removal_keeps_focus<T>(s: Seq<T>, idx: usize, c: usize)
    requires
        idx < s.len(),
        c < s.len(),
        s.len() > 1,
    ensures
        focus_after_remove(Some(c), idx, s.len()) matches Some(c2) && c2 < s.remove(idx as int).len(),
        c != idx ==> (focus_after_remove(Some(c), idx, s.len()) matches Some(c2)
            && s.remove(idx as int)[c2 as int] == s[c as int]),
{
}

/// Moving focus back undoes moving it forward: from any focused index of
/// a non-empty manager, `next` then `prev` returns to it.
pub proof fn prev_undoes_next(i: usize, len: nat)
    requires
        i < len <= usize::MAX,
    ensures
        prev_index(next_index(Some(i), len), len) == Some(i),
{
    if i + 1 < len {
        assert((i + 1) % (len as int) == i + 1) by (nonlinear_arith)
            requires i + 1 < len, 0 <= i;
    } else {
        assert((i + 1) % (len as int) == 0) by (nonlinear_arith)
            requires i + 1 == len;
    }
}

/// In any valid manager with focus, `prev` undoes `next` and `next`
/// undoes `prev`.
pub proof fn focus_moves_undo<T: PartialEq + Clone>(m: FocusManager<T>)
    requires
        m.wf(),
        m.focus_view() is Some,
    ensures
        prev_index(next_index(m.focus_view(), m.elements_view().len()), m.elements_view().len()) == m.focus_view(),
        next_index(prev_index(m.focus_view(), m.elements_view().len()), m.elements_view().len()) == m.focus_view(),
{
    let i = m.focus_view()->0;
    prev_undoes_next(i, m.elements_view().len());
    next_undoes_prev(i, m.elements_view().len());
}

/// Moving focus forward undoes moving it back: from any focused index of
/// a non-empty manager, `prev` then `next` returns to it.
pub proof fn next_undoes_prev(i: usize, len: nat)
    requires
        i < len <= usize::MAX,
    ensures
        next_index(prev_index(Some(i), len), len) == Some(i),
{
    if i == 0 {
        assert(((len - 1) + 1) % (len as int) == 0) by (nonlinear_arith)
            requires len >= 1;
    } else {
        assert(((i - 1) + 1) % (len as int) == i) by (nonlinear_arith)
            requires 1 <= i < len;
    }
}

/// Navigation wraps around: `next` from the last element focuses the
/// first, `prev` from the first focuses the last, and either gives an
/// unfocused non-empty manager focus on the first.
pub proof fn navigation_wraps(len: nat)
    requires
        0 < len <= usize::MAX,
    ensures
        next_index(Some((len - 1) as usize), len) == Some(0usize),
        prev_index(Some(0usize), len) == Some((len - 1) as usize),
        next_index(None, len) == Some(0usize),
        prev_index(None, len) == Some(0usize),
{
    assert(((len - 1) + 1) % (len as int) == 0) by (nonlinear_arith)
        requires len >= 1;
}

/// Registering an element a second time changes nothing: the elements and
/// the focus are those after the first registration.
pub proof fn register_is_idempotent<T: PartialEq>(s: Seq<T>, f: Option<usize>, x: T)
    requires
        x.eq_spec(&x),
    ensures
        ({
            let once = after_register(s, f, x);
            after_register(once.0, once.1, x) == once
        }),
{
    let once = after_register(s, f, x);
    if !(exists|i: int| 0 <= i < s.len() && matches_at(s, i, x)) {
        assert(matches_at(once.0, s.len() as int, x));
    }
}

} // verus!
