//! Hotkey categories and providers, which applications implement, and the
//! entries they hand out.
use vstd::prelude::*;
use crate::text::string_from_str;

verus! {

/// A category of hotkeys, implemented by an application's category type.
pub trait HotkeyCategory: Clone + Copy + PartialEq + Default + 'static {
    /// Every category, in display order.
    fn all() -> &'static [Self];

    /// The category's name.
    fn display_name(&self) -> &str;

    /// An icon for the category; none by default.
    fn icon(&self) -> (r: &str)
        default_ensures
            r@.len() == 0,
    {
        proof {
            reveal_strlit("");
        }
        ""
    }

    /// The next category, wrapping around.
    fn next(&self) -> Self;

    /// The previous category, wrapping around.
    fn prev(&self) -> Self;
}

/// One hotkey as the dialog shows it.
#[derive(Debug, Clone)]
pub struct HotkeyEntryData {
    /// The shortcut, such as "Ctrl+C".
    pub key_combination: String,
    /// What it does.
    pub action: String,
    /// Where it applies, such as "Global".
    pub context: String,
    pub is_global: bool,
    pub is_customizable: bool,
}

impl HotkeyEntryData {
    /// A customizable, non-global entry.
    pub fn new(key_combination: &str, action: &str, context: &str) -> (e: Self)
        ensures
            e.key_combination@ == key_combination@,
            e.action@ == action@,
            e.context@ == context@,
            !e.is_global,
            e.is_customizable,
    {
        HotkeyEntryData {
            key_combination: string_from_str(key_combination),
            action: string_from_str(action),
            context: string_from_str(context),
            is_global: false,
            is_customizable: true,
        }
    }

    /// A customizable global entry, in the context "Global".
    pub fn global(key_combination: &str, action: &str) -> (e: Self)
        ensures
            e.key_combination@ == key_combination@,
            e.action@ == action@,
            e.context@ == "Global"@,
            e.is_global,
            e.is_customizable,
    {
        HotkeyEntryData {
            key_combination: string_from_str(key_combination),
            action: string_from_str(action),
            context: string_from_str("Global"),
            is_global: true,
            is_customizable: true,
        }
    }

    /// The same entry, not customizable.
    pub fn fixed(self) -> (e: Self)
        ensures
            e == (HotkeyEntryData { is_customizable: false, ..self }),
    {
        HotkeyEntryData { is_customizable: false, ..self }
    }

    /// The same entry, global as given.
    pub fn with_global(self, is_global: bool) -> (e: Self)
        ensures
            e == (HotkeyEntryData { is_global, ..self }),
    {
        HotkeyEntryData { is_global, ..self }
    }
}

/// The sum of the counts.
pub open spec fn count_sum(s: Seq<usize>) -> int
    decreases s.len(),
{
    if s.len() == 0 { 0 } else { count_sum(s.drop_last()) + s.last() }
}

/// The sum of `counts`, or `usize::MAX` where it does not fit.
pub fn total_of(counts: &[usize]) -> (r: usize)
    ensures
        r == if count_sum(counts@) <= usize::MAX { count_sum(counts@) } else { usize::MAX as int },
{
    let mut acc: usize = 0;
    let mut i: usize = 0;
    while i < counts.len()
        invariant
            i <= counts@.len(),
            acc == if count_sum(counts@.take(i as int)) <= usize::MAX { count_sum(counts@.take(i as int)) } else { usize::MAX as int },
        decreases counts@.len() - i,
    {
        assert(counts@.take(i as int + 1).drop_last() =~= counts@.take(i as int));
        acc = acc.saturating_add(counts[i]);
        i = i + 1;
    }
    assert(counts@.take(counts@.len() as int) =~= counts@);
    acc
}

/// The number of entries in each list.
pub open spec fn list_lengths(lists: Seq<Vec<HotkeyEntryData>>) -> Seq<usize> {
    Seq::new(lists.len(), |i: int| lists[i].len())
}

/// The sum of `counts`, saturating at `usize::MAX`.
pub open spec fn saturating_total(counts: Seq<usize>) -> int {
    if count_sum(counts) <= usize::MAX { count_sum(counts) } else { usize::MAX as int }
}

/// A source of hotkey entries, implemented by an application.
pub trait HotkeyProvider {
    /// The categories the entries fall in.
    type Category: HotkeyCategory;

    /// The entries of one category.
    fn entries_for_category(&self, category: Self::Category) -> Vec<HotkeyEntryData>;

    /// The entries of every category that match `query`, case-insensitively,
    /// in their key, action or context.
    fn search(&self, query: &str) -> Vec<(Self::Category, HotkeyEntryData)>;

    /// The number of entries over all categories: the sum of the lengths of
    /// what `entries_for_category` hands out for each category of
    /// `Category::all`, saturating at `usize::MAX`.
    fn total_count(&self) -> (n: usize)
        ensures
            exists|cats: &[Self::Category], lists: Seq<Vec<HotkeyEntryData>>|
                #![trigger call_ensures(Self::Category::all, (), cats), list_lengths(lists)]
                call_ensures(Self::Category::all, (), cats)
                && lists.len() == cats@.len()
                && (forall|i: int| 0 <= i < lists.len()
                    ==> call_ensures(Self::entries_for_category, (self, cats@[i]), #[trigger] lists[i]))
                && n == saturating_total(list_lengths(lists)),
    {
        let all = Self::Category::all();
        let mut counts: Vec<usize> = Vec::new();
        let ghost mut lists: Seq<Vec<HotkeyEntryData>> = Seq::empty();
        let mut i: usize = 0;
        while i < all.len()
            invariant
                i <= all@.len(),
                counts@.len() == i,
                lists.len() == i,
                counts@ == list_lengths(lists),
                forall|j: int| 0 <= j < i
                    ==> call_ensures(Self::entries_for_category, (self, all@[j]), #[trigger] lists[j]),
            decreases all@.len() - i,
        {
            let c = all[i];
            let entries = self.entries_for_category(c);
            assert(call_ensures(Self::entries_for_category, (self, c), entries));
            let k = entries.len();
            counts.push(k);
            proof {
                let old_lists = lists;
                lists = lists.push(entries);
                assert forall|j: int| 0 <= j < i + 1
                    implies call_ensures(Self::entries_for_category, (self, all@[j]), #[trigger] lists[j]) by {
                    if j < i {
                        assert(lists[j] == old_lists[j]);
                    }
                }
                assert(counts@ =~= list_lengths(lists));
            }
            i = i + 1;
        }
        assert(call_ensures(Self::Category::all, (), all));
        let n = total_of(counts.as_slice());
        assert(n == saturating_total(list_lengths(lists)));
        n
    }
}

} // verus!
