//! File explorer: a directory listing with a cursor, multi-selection of
//! files, a search filter, and the lines that show it. Paths are held as
//! text; reading a directory is left to the caller, who hands the entries
//! read to `apply_listing`.
use vstd::prelude::*;
use vstd::string::*;
use vstd::utf8::*;
use crate::components::select::{dropdown_row_count, scroll_to_highlight};
use crate::display::{format_size, size_text};
use crate::geometry::{block_inner, bordered_inner, sat_sub16, split_of, split_two, Constraint, Direction, Rect};
use crate::strset::{contains_text, insert_text, no_duplicate_texts, remove_text, text_set};
use crate::style::{fg, fg_bg, fg_bg_style, fg_style, plain_style, spans_match, with_modifier, Color, Modifier, Style};
use crate::text::{
    chars_of, concat, contains_spec, decimal, usize_to_string, lowercase, pad_left, pad_left_str, pad_right, pad_right_str,
    str_contains, str_eq, string_from_str, to_lowercase,
};

verus! {

/// The kind of a directory entry.
#[derive(Debug, Clone, PartialEq, Eq)]
pub enum EntryType {
    /// A regular file, with its extension and size in bytes.
    File { extension: Option<String>, size: u64 },
    Directory,
    /// The `..` entry.
    ParentDir,
    /// A symbolic link, with its target where it could be read.
    Symlink { target: Option<String> },
}

/// One entry of the listing.
#[derive(Debug, Clone)]
pub struct FileEntry {
    pub name: String,
    pub path: String,
    pub entry_type: EntryType,
}

impl FileEntry {
    /// An entry with the given name, path and kind.
    pub fn new(name: &str, path: String, entry_type: EntryType) -> (e: Self)
        ensures
            e.name@ == name@,
            e.path == path,
            e.entry_type == entry_type,
    {
        FileEntry { name: string_from_str(name), path, entry_type }
    }

    /// The `..` entry leading to `parent_path`.
    pub fn parent_dir(parent_path: String) -> (e: Self)
        ensures
            e.name@ == ".."@,
            e.path == parent_path,
            e.entry_type == EntryType::ParentDir,
    {
        FileEntry { name: string_from_str(".."), path: parent_path, entry_type: EntryType::ParentDir }
    }

    /// Whether the entry is a directory or the `..` entry.
    pub fn is_dir(&self) -> (b: bool)
        ensures
            b == (self.entry_type is Directory || self.entry_type is ParentDir),
    {
        match self.entry_type {
            EntryType::Directory | EntryType::ParentDir => true,
            _ => false,
        }
    }

    /// Whether the entry can be selected: files only.
    pub fn is_selectable(&self) -> (b: bool)
        ensures
            b == self.entry_type is File,
    {
        match self.entry_type {
            EntryType::File { .. } => true,
            _ => false,
        }
    }
}

/// Browsing, or typing a search query.
#[derive(Debug, Clone, Copy, PartialEq, Eq, Structural, Default)]
pub enum FileExplorerMode {
    #[default]
    Browse,
    Search,
}

/// State of the file explorer.
#[derive(Debug, Clone)]
pub struct FileExplorerState {
    pub current_dir: String,
    pub entries: Vec<FileEntry>,
    /// Position of the cursor among the entries shown.
    pub cursor_index: usize,
    pub scroll: u16,
    /// Paths of the selected files, each once.
    pub selected_files: Vec<String>,
    pub show_hidden: bool,
    pub mode: FileExplorerMode,
    pub search_query: String,
    /// Indices of the entries that match the search, when filtering.
    pub filtered_indices: Option<Vec<usize>>,
}

/// What `Path::parent` returns for a path: the path without its last
/// component, or nothing for a root or empty path.
pub uninterp spec fn path_parent_of(p: Seq<char>) -> Option<Seq<char>>;

/// Calls `std::path::Path::parent` on the path `p`. The result is the named
/// parent; how paths split into components is not stated.
#[verifier::external_body]
fn path_parent(p: &str) -> (r: Option<String>)
    ensures
        match r {
            Some(s) => path_parent_of(p@) == Some(s@),
            None => path_parent_of(p@) is None,
        },
{
    match std::path::Path::new(p).parent() {
        Some(q) => Some(q.to_string_lossy().into_owned()),
        None => None,
    }
}

/// The key entries are sorted by: the lower-cased name.
pub open spec fn sort_key(e: FileEntry) -> Seq<char> {
    lowercase(e.name@)
}

/// `a` comes strictly before `b`, comparing characters from position `i`
/// on by code point (the order of `String`'s `cmp`, as UTF-8 keeps it).
pub open spec fn lex_lt_from(a: Seq<char>, b: Seq<char>, i: int) -> bool
    decreases a.len() - i,
{
    if i >= a.len() {
        i < b.len()
    } else if i >= b.len() {
        false
    } else if a[i] != b[i] {
        (a[i] as u32) < (b[i] as u32)
    } else {
        lex_lt_from(a, b, i + 1)
    }
}

/// `a` comes strictly before `b` in lexicographic order.
pub open spec fn lex_lt(a: Seq<char>, b: Seq<char>) -> bool {
    lex_lt_from(a, b, 0)
}

/// Whether `a` comes strictly before `b` in lexicographic order.
fn chars_lt(a: &[char], b: &[char]) -> (r: bool)
    ensures
        r == lex_lt(a@, b@),
{
    let mut i: usize = 0;
    while i < a.len() && i < b.len() && a[i] == b[i]
        invariant
            i <= a@.len(),
            i <= b@.len(),
            lex_lt_from(a@, b@, i as int) == lex_lt(a@, b@),
        decreases a@.len() - i,
    {
        i = i + 1;
    }
    if i >= a.len() {
        i < b.len()
    } else if i >= b.len() {
        false
    } else {
        (a[i] as u32) < (b[i] as u32)
    }
}

/// The position a stable insertion puts an element with key `k` at: after
/// every element whose key is not greater.
pub open spec fn insert_pos(sorted: Seq<FileEntry>, k: Seq<char>, p: int) -> bool {
    &&& 0 <= p <= sorted.len()
    &&& forall|j: int| 0 <= j < p ==> !lex_lt(k, #[trigger] sort_key(sorted[j]))
    &&& p < sorted.len() ==> lex_lt(k, sort_key(sorted[p]))
}

/// `s` sorted by `sort_key`, stably (equal keys keep their order): each
/// element inserted after the elements before it whose key is not greater.
pub open spec fn stable_sorted(s: Seq<FileEntry>, r: Seq<FileEntry>) -> bool
    decreases s.len(),
{
    if s.len() == 0 {
        r.len() == 0
    } else {
        exists|p: int| #[trigger] insert_pos(r.remove(p), sort_key(s.last()), p)
            && r[p] == s.last() && stable_sorted(s.drop_last(), r.remove(p))
    }
}

/// Sorts entries by lower-cased name, stably.
fn sort_by_name(v: Vec<FileEntry>) -> (r: Vec<FileEntry>)
    ensures
        stable_sorted(v@, r@),
{
    let ghost orig = v@;
    let n = v.len();
    let mut rest = v;
    let mut out: Vec<FileEntry> = Vec::new();
    let mut keys: Vec<Vec<char>> = Vec::new();
    let mut i: usize = 0;
    while rest.len() > 0
        invariant
            i + rest@.len() == orig.len(),
            orig.len() == n,
            rest@ == orig.subrange(i as int, orig.len() as int),
            keys@.len() == out@.len(),
            forall|j: int| 0 <= j < out@.len() ==> (#[trigger] keys@[j])@ == sort_key(out@[j]),
            stable_sorted(orig.subrange(0, i as int), out@),
        decreases rest@.len(),
    {
        let e = rest.remove(0);
        assert(e == orig[i as int]);
        let low = to_lowercase(e.name.as_str());
        let k = chars_of(low.as_str());
        let mut p: usize = 0;
        while p < out.len() && !chars_lt(&k, &keys[p])
            invariant
                p <= out@.len(),
                keys@.len() == out@.len(),
                forall|j: int| 0 <= j < out@.len() ==> (#[trigger] keys@[j])@ == sort_key(out@[j]),
                k@ == sort_key(e),
                forall|j: int| 0 <= j < p ==> !lex_lt(k@, #[trigger] sort_key(out@[j])),
            decreases out@.len() - p,
        {
            p = p + 1;
        }
        let ghost old_out = out@;
        out.insert(p, e);
        keys.insert(p, k);
        proof {
            assert(out@.remove(p as int) =~= old_out);
            assert(orig.subrange(0, i + 1).drop_last() =~= orig.subrange(0, i as int));
            assert(orig.subrange(0, i + 1).last() == orig[i as int]);
            assert(insert_pos(out@.remove(p as int), sort_key(orig[i as int]), p as int));
            assert forall|j: int| 0 <= j < out@.len() implies (#[trigger] keys@[j])@ == sort_key(out@[j]) by {
                if j < p {
                } else if j > p {
                    assert(out@[j] == old_out[j - 1]);
                }
            }
            assert(rest@ =~= orig.subrange(i + 1, orig.len() as int));
        }
        i = i + 1;
    }
    assert(orig.subrange(0, orig.len() as int) =~= orig);
    out
}


/// Whether a listing keeps an entry named `name`: names starting with a dot
/// are hidden unless `show_hidden`.
pub fn kept_name(name: &str, show_hidden: bool) -> (b: bool)
    ensures
        b == (show_hidden || !(name@.len() > 0 && name@[0] == '.')),
{
    show_hidden || !(name.unicode_len() > 0 && name.get_char(0) == '.')
}

/// Whether a listing keeps the entry: hidden entries (names starting with a
/// dot) only when they are shown.
pub open spec fn kept_entry(show_hidden: bool, e: FileEntry) -> bool {
    show_hidden || !(e.name@.len() > 0 && e.name@[0] == '.')
}

/// The entries among the first `n` of `raw` that a listing keeps and that
/// are directories (`dirs`) or not (`!dirs`), in order.
pub open spec fn kept_group(raw: Seq<FileEntry>, show_hidden: bool, dirs: bool, n: int) -> Seq<FileEntry>
    decreases n,
{
    if n <= 0 {
        Seq::empty()
    } else {
        let e = raw[n - 1];
        let prev = kept_group(raw, show_hidden, dirs, n - 1);
        if kept_entry(show_hidden, e) && ((e.entry_type is Directory || e.entry_type is ParentDir) == dirs) {
            prev.push(e)
        } else {
            prev
        }
    }
}

/// The listing `r` splits at `k` into the `..` entry (when the directory
/// has a parent), the sorted directories (up to `k`) and the sorted other
/// entries.
pub open spec fn listing_split(parent: Option<Seq<char>>, raw: Seq<FileEntry>, show_hidden: bool, r: Seq<FileEntry>, k: int) -> bool {
    let n0: int = if parent is Some { 1 } else { 0 };
    &&& n0 <= k <= r.len()
    &&& (parent matches Some(p) ==> (r[0].name@ == ".."@ && r[0].path@ == p && r[0].entry_type == EntryType::ParentDir))
    &&& stable_sorted(kept_group(raw, show_hidden, true, raw.len() as int), r.subrange(n0, k))
    &&& stable_sorted(kept_group(raw, show_hidden, false, raw.len() as int), r.subrange(k, r.len() as int))
}

/// The entries a listing gives: the `..` entry when the directory has a
/// parent, then the directories, then the other entries, each group sorted
/// by name (see `stable_sorted`).
pub open spec fn listing_spec(parent: Option<Seq<char>>, raw: Seq<FileEntry>, show_hidden: bool, r: Seq<FileEntry>) -> bool {
    exists|k: int| #[trigger] listing_split(parent, raw, show_hidden, r, k)
}

/// The indices of the entries among the first `n` whose lower-cased name
/// contains `query`, in order.
pub open spec fn matching_indices(entries: Seq<FileEntry>, query: Seq<char>, n: int) -> Seq<usize>
    decreases n,
{
    if n <= 0 {
        Seq::empty()
    } else if contains_spec(lowercase(entries[n - 1].name@), query) {
        matching_indices(entries, query, n - 1).push((n - 1) as usize)
    } else {
        matching_indices(entries, query, n - 1)
    }
}

/// The entries shown: the filtered ones, or all.
pub open spec fn shown_count(s: FileExplorerState) -> int {
    match s.filtered_indices {
        Some(v) => v@.len() as int,
        None => s.entries@.len() as int,
    }
}

/// The entry under the cursor.
pub open spec fn entry_at_cursor(s: FileExplorerState) -> Option<FileEntry> {
    match s.filtered_indices {
        Some(v) => if s.cursor_index < v@.len() && v@[s.cursor_index as int] < s.entries@.len() {
            Some(s.entries@[v@[s.cursor_index as int] as int])
        } else {
            None
        },
        None => if s.cursor_index < s.entries@.len() {
            Some(s.entries@[s.cursor_index as int])
        } else {
            None
        },
    }
}

impl FileExplorerState {
    /// An empty listing of `start_dir`, browsing, hidden files not shown.
    pub fn new(start_dir: String) -> (s: Self)
        ensures
            s.current_dir == start_dir,
            s.entries@.len() == 0,
            s.cursor_index == 0,
            s.scroll == 0,
            s.selected_files@.len() == 0,
            !s.show_hidden,
            s.mode == FileExplorerMode::Browse,
            s.search_query@.len() == 0,
            s.filtered_indices is None,
    {
        FileExplorerState {
            current_dir: start_dir,
            entries: Vec::new(),
            cursor_index: 0,
            scroll: 0,
            selected_files: Vec::new(),
            show_hidden: false,
            mode: FileExplorerMode::Browse,
            search_query: String::new(),
            filtered_indices: None,
        }
    }

    /// Replaces the entries with those read from the current directory
    /// (`raw`, in any order; see `listing_spec`) and resets cursor, scroll
    /// and filter.
    pub fn apply_listing(&mut self, raw: Vec<FileEntry>)
        ensures
            final(self).current_dir == old(self).current_dir,
            final(self).cursor_index == 0,
            final(self).scroll == 0,
            final(self).filtered_indices is None,
            final(self).selected_files == old(self).selected_files,
            final(self).show_hidden == old(self).show_hidden,
            final(self).mode == old(self).mode,
            final(self).search_query == old(self).search_query,
            listing_spec(path_parent_of(old(self).current_dir@), raw@, old(self).show_hidden, final(self).entries@),
    {
        let mut entries: Vec<FileEntry> = Vec::new();
        let parent = path_parent(self.current_dir.as_str());
        let ghost has_parent = parent is Some;
        match parent {
            Some(p) => entries.push(FileEntry::parent_dir(p)),
            None => {},
        }
        let ghost orig = raw@;
        let n = raw.len();
        let mut rest = raw;
        let mut dirs: Vec<FileEntry> = Vec::new();
        let mut files: Vec<FileEntry> = Vec::new();
        let mut i: usize = 0;
        while rest.len() > 0
            invariant
                i + rest@.len() == orig.len(),
                orig.len() == n,
                rest@ == orig.subrange(i as int, orig.len() as int),
                dirs@ == kept_group(orig, self.show_hidden, true, i as int),
                files@ == kept_group(orig, self.show_hidden, false, i as int),
            decreases rest@.len(),
        {
            let e = rest.remove(0);
            assert(e == orig[i as int]);
            if !kept_name(e.name.as_str(), self.show_hidden) {
            } else if e.is_dir() {
                dirs.push(e);
            } else {
                files.push(e);
            }
            assert(rest@ =~= orig.subrange(i + 1, orig.len() as int));
            i = i + 1;
        }
        let sd = sort_by_name(dirs);
        let sf = sort_by_name(files);
        let ghost head = entries@;
        let ghost n0: int = entries@.len() as int;
        let ghost dv = sd@;
        let ghost fv = sf@;
        let mut sd = sd;
        let mut sf = sf;
        entries.append(&mut sd);
        entries.append(&mut sf);
        proof {
            assert(entries@ =~= head + dv + fv);
            assert(entries@.subrange(n0, n0 + dv.len()) =~= dv);
            assert(entries@.subrange(n0 + dv.len(), entries@.len() as int) =~= fv);
            assert(n0 <= n0 + dv.len() <= entries@.len());
            let k = n0 + dv.len();
            assert(stable_sorted(kept_group(orig, self.show_hidden, true, orig.len() as int), entries@.subrange(n0, k)));
            assert(stable_sorted(kept_group(orig, self.show_hidden, false, orig.len() as int), entries@.subrange(k, entries@.len() as int)));
            let pp = path_parent_of(self.current_dir@);
            assert(n0 == (if pp is Some { 1int } else { 0int }));
            if has_parent {
                assert(entries@[0] == head[0]);
            }
            assert(listing_split(pp, orig, self.show_hidden, entries@, k));
        }
        self.entries = entries;
        self.cursor_index = 0;
        self.scroll = 0;
        self.filtered_indices = None;
    }

    /// Moves to the directory `path`; the caller lists it anew.
    pub fn enter_directory(&mut self, path: String)
        ensures
            *final(self) == (FileExplorerState { current_dir: path, ..*old(self) }),
    {
        self.current_dir = path;
    }

    /// Moves to the parent directory, when there is one; the caller lists
    /// it anew. Returns whether it moved.
    pub fn go_up(&mut self) -> (moved: bool)
        ensures
            moved == path_parent_of(old(self).current_dir@) is Some,
            moved ==> Some(final(self).current_dir@) == path_parent_of(old(self).current_dir@),
            !moved ==> final(self).current_dir == old(self).current_dir,
            final(self).entries == old(self).entries,
            final(self).cursor_index == old(self).cursor_index,
            final(self).selected_files == old(self).selected_files,
            final(self).filtered_indices == old(self).filtered_indices,
    {
        match path_parent(self.current_dir.as_str()) {
            Some(p) => {
                self.current_dir = p;
                true
            },
            None => false,
        }
    }

    /// The number of entries shown: the filtered ones, or all.
    pub fn visible_count(&self) -> (n: usize)
        ensures
            n == shown_count(*self),
    {
        match &self.filtered_indices {
            Some(v) => v.len(),
            None => self.entries.len(),
        }
    }

    /// Moves the cursor up one entry, stopping at the first.
    pub fn cursor_up(&mut self)
        ensures
            final(self).cursor_index == if shown_count(*old(self)) > 0 && old(self).cursor_index > 0 {
                (old(self).cursor_index - 1) as usize
            } else {
                old(self).cursor_index
            },
            *final(self) == (FileExplorerState { cursor_index: final(self).cursor_index, ..*old(self) }),
    {
        let count = self.visible_count();
        if count > 0 && self.cursor_index > 0 {
            self.cursor_index -= 1;
        }
    }

    /// Moves the cursor down one entry, stopping at the last shown.
    pub fn cursor_down(&mut self)
        ensures
            final(self).cursor_index == if old(self).cursor_index + 1 < shown_count(*old(self)) {
                (old(self).cursor_index + 1) as usize
            } else {
                old(self).cursor_index
            },
            *final(self) == (FileExplorerState { cursor_index: final(self).cursor_index, ..*old(self) }),
    {
        let count = self.visible_count();
        if count > 0 && self.cursor_index < count - 1 {
            self.cursor_index += 1;
        }
    }

    /// The entry under the cursor.
    pub fn current_entry(&self) -> (r: Option<&FileEntry>)
        ensures
            match entry_at_cursor(*self) {
                Some(e) => r matches Some(x) && *x == e,
                None => r is None,
            },
    {
        match &self.filtered_indices {
            Some(v) => {
                if self.cursor_index < v.len() && v[self.cursor_index] < self.entries.len() {
                    Some(&self.entries[v[self.cursor_index]])
                } else {
                    None
                }
            },
            None => {
                if self.cursor_index < self.entries.len() {
                    Some(&self.entries[self.cursor_index])
                } else {
                    None
                }
            },
        }
    }

    /// Selects the file under the cursor, or unselects it when it is
    /// selected. Directories and links are not selected.
    pub fn toggle_selection(&mut self)
        ensures
            match entry_at_cursor(*old(self)) {
                Some(e) => if e.entry_type is File {
                    if text_set(old(self).selected_files@).contains(e.path@) {
                        text_set(final(self).selected_files@) == text_set(old(self).selected_files@).remove(e.path@)
                    } else {
                        text_set(final(self).selected_files@) == text_set(old(self).selected_files@).insert(e.path@)
                    }
                } else {
                    final(self).selected_files == old(self).selected_files
                },
                None => final(self).selected_files == old(self).selected_files,
            },
            no_duplicate_texts(old(self).selected_files@) ==> no_duplicate_texts(final(self).selected_files@),
            final(self).entries == old(self).entries,
            final(self).cursor_index == old(self).cursor_index,
            final(self).filtered_indices == old(self).filtered_indices,
            final(self).current_dir == old(self).current_dir,
    {
        let mut path: Option<String> = None;
        match self.current_entry() {
            Some(entry) => {
                if entry.is_selectable() {
                    path = Some(string_from_str(entry.path.as_str()));
                }
            },
            None => {},
        }
        match path {
            Some(p) => {
                if contains_text(&self.selected_files, p.as_str()) {
                    remove_text(&mut self.selected_files, p.as_str());
                } else {
                    insert_text(&mut self.selected_files, p.as_str());
                }
            },
            None => {},
        }
    }

    /// Selects every file of the listing.
    pub fn select_all(&mut self)
        ensures
            text_set(final(self).selected_files@) == text_set(old(self).selected_files@).union(
                Set::new(|t: Seq<char>| exists|i: int| 0 <= i < old(self).entries@.len()
                    && (#[trigger] old(self).entries@[i]).entry_type is File && old(self).entries@[i].path@ == t),
            ),
            no_duplicate_texts(old(self).selected_files@) ==> no_duplicate_texts(final(self).selected_files@),
            final(self).entries == old(self).entries,
            final(self).cursor_index == old(self).cursor_index,
            final(self).filtered_indices == old(self).filtered_indices,
    {
        let ghost files = Set::new(|t: Seq<char>| exists|i: int| 0 <= i < self.entries@.len()
            && (#[trigger] self.entries@[i]).entry_type is File && self.entries@[i].path@ == t);
        let ghost start = text_set(self.selected_files@);
        let mut i: usize = 0;
        while i < self.entries.len()
            invariant
                i <= self.entries@.len(),
                self.entries == old(self).entries,
                self.cursor_index == old(self).cursor_index,
                self.filtered_indices == old(self).filtered_indices,
                no_duplicate_texts(old(self).selected_files@) ==> no_duplicate_texts(self.selected_files@),
                text_set(self.selected_files@) == start.union(Set::new(|t: Seq<char>| exists|j: int| 0 <= j < i
                    && (#[trigger] self.entries@[j]).entry_type is File && self.entries@[j].path@ == t)),
            decreases self.entries@.len() - i,
        {
            let ghost before = text_set(self.selected_files@);
            if self.entries[i].is_selectable() {
                let p = string_from_str(self.entries[i].path.as_str());
                insert_text(&mut self.selected_files, p.as_str());
            }
            proof {
                let a = Set::new(|t: Seq<char>| exists|j: int| 0 <= j < i
                    && (#[trigger] self.entries@[j]).entry_type is File && self.entries@[j].path@ == t);
                let b = Set::new(|t: Seq<char>| exists|j: int| 0 <= j < i + 1
                    && (#[trigger] self.entries@[j]).entry_type is File && self.entries@[j].path@ == t);
                if self.entries@[i as int].entry_type is File {
                    assert(b =~= a.insert(self.entries@[i as int].path@));
                } else {
                    assert(b =~= a);
                }
                assert(text_set(self.selected_files@) =~= start.union(b));
            }
            i = i + 1;
        }
        assert(text_set(self.selected_files@) =~= start.union(files));
    }

    /// Unselects every file.
    pub fn select_none(&mut self)
        ensures
            final(self).selected_files@.len() == 0,
            *final(self) == (FileExplorerState { selected_files: final(self).selected_files, ..*old(self) }),
    {
        self.selected_files.clear();
    }

    /// Shows or hides hidden files; the caller lists the directory anew.
    pub fn toggle_hidden(&mut self)
        ensures
            *final(self) == (FileExplorerState { show_hidden: !old(self).show_hidden, ..*old(self) }),
    {
        self.show_hidden = !self.show_hidden;
    }

    /// Starts typing a search query, from an empty one.
    pub fn start_search(&mut self)
        ensures
            final(self).mode == FileExplorerMode::Search,
            final(self).search_query@.len() == 0,
            *final(self) == (FileExplorerState { mode: FileExplorerMode::Search, search_query: final(self).search_query, ..*old(self) }),
    {
        self.mode = FileExplorerMode::Search;
        self.search_query = String::new();
    }

    /// Leaves the search: back to browsing, no query, no filter.
    pub fn cancel_search(&mut self)
        ensures
            final(self).mode == FileExplorerMode::Browse,
            final(self).search_query@.len() == 0,
            final(self).filtered_indices is None,
            *final(self) == (FileExplorerState {
                mode: FileExplorerMode::Browse,
                search_query: final(self).search_query,
                filtered_indices: None,
                ..*old(self)
            }),
    {
        self.mode = FileExplorerMode::Browse;
        self.search_query = String::new();
        self.filtered_indices = None;
    }

    /// Filters the entries by the search query: an empty query shows all;
    /// otherwise the entries whose name contains the query, ignoring case,
    /// are shown and the cursor goes to the first.
    pub fn update_filter(&mut self)
        ensures
            old(self).search_query@.len() == 0 ==> *final(self) == (FileExplorerState { filtered_indices: None, ..*old(self) }),
            old(self).search_query@.len() > 0 ==> ({
                &&& final(self).filtered_indices matches Some(v) && v@ == matching_indices(
                    old(self).entries@,
                    lowercase(old(self).search_query@),
                    old(self).entries@.len() as int,
                )
                &&& *final(self) == (FileExplorerState {
                    filtered_indices: final(self).filtered_indices,
                    cursor_index: 0,
                    ..*old(self)
                })
            }),
    {
        if self.search_query.as_str().unicode_len() == 0 {
            self.filtered_indices = None;
        } else {
            let query = to_lowercase(self.search_query.as_str());
            let mut v: Vec<usize> = Vec::new();
            let mut i: usize = 0;
            while i < self.entries.len()
                invariant
                    i <= self.entries@.len(),
                    query@ == lowercase(self.search_query@),
                    v@ == matching_indices(self.entries@, query@, i as int),
                decreases self.entries@.len() - i,
            {
                let name = to_lowercase(self.entries[i].name.as_str());
                if str_contains(name.as_str(), query.as_str()) {
                    v.push(i);
                }
                i = i + 1;
            }
            self.filtered_indices = Some(v);
            self.cursor_index = 0;
        }
    }

    /// Scrolls so that the cursor is among the `viewport_height` lines shown.
    pub fn ensure_visible(&mut self, viewport_height: usize)
        ensures
            *final(self) == (FileExplorerState {
                scroll: scroll_to_highlight(old(self).cursor_index, old(self).scroll, viewport_height),
                ..*old(self)
            }),
    {
        if viewport_height == 0 {
            return;
        }
        if self.cursor_index < self.scroll as usize {
            self.scroll = self.cursor_index as u16;
        } else if self.cursor_index - self.scroll as usize >= viewport_height {
            self.scroll = (self.cursor_index - viewport_height + 1) as u16;
        }
    }
}


/// Colors, icons and check boxes of the file explorer.
#[derive(Debug, Clone)]
pub struct FileExplorerStyle {
    pub border_style: Style,
    /// Style of the line under the cursor.
    pub cursor_style: Style,
    pub dir_style: Style,
    /// File name colors, by groups of extensions; the first group holding
    /// an extension gives its color.
    pub file_colors: Vec<(Vec<&'static str>, Color)>,
    pub default_file_color: Color,
    pub size_style: Style,
    pub checkbox_checked: &'static str,
    pub checkbox_unchecked: &'static str,
    pub dir_icon: &'static str,
    pub parent_icon: &'static str,
    pub symlink_icon: &'static str,
}

/// The group of extensions holds `ext`.
pub open spec fn group_has(g: (Vec<&'static str>, Color), ext: Seq<char>) -> bool {
    exists|k: int| 0 <= k < g.0@.len() && (#[trigger] g.0@[k])@ == ext
}

/// The color of the first group from `i` on that holds `ext`, or `dflt`.
pub open spec fn color_from(groups: Seq<(Vec<&'static str>, Color)>, i: int, ext: Seq<char>, dflt: Color) -> Color
    decreases groups.len() - i,
{
    if i < 0 || i >= groups.len() {
        dflt
    } else if group_has(groups[i], ext) {
        groups[i].1
    } else {
        color_from(groups, i + 1, ext, dflt)
    }
}

/// The extensions of a group are these texts, in order.
pub open spec fn group_is(g: (Vec<&'static str>, Color), exts: Seq<Seq<char>>, c: Color) -> bool {
    &&& g.1 == c
    &&& g.0@.len() == exts.len()
    &&& forall|k: int| 0 <= k < exts.len() ==> (#[trigger] g.0@[k])@ == exts[k]
}

/// The default explorer style: a cyan border, a bold black-on-cyan cursor,
/// bold blue directories, file colors by extension (gray otherwise),
/// "[x]"/"[ ]" checkboxes and the "[DIR]", " .. " and "[LNK]" icons.
pub open spec fn is_default_explorer_style(s: FileExplorerStyle) -> bool {
    &&& s.border_style == fg_style(Color::Cyan)
    &&& s.cursor_style == with_modifier(fg_bg_style(Color::Black, Color::Cyan), Modifier { bits: 1 })
    &&& s.dir_style == with_modifier(fg_style(Color::Blue), Modifier { bits: 1 })
    &&& s.file_colors@.len() == 6
    &&& group_is(s.file_colors@[0], seq!["rs"@], Color::Yellow)
    &&& group_is(s.file_colors@[1], seq!["toml"@, "json"@, "yaml"@, "yml"@], Color::Green)
    &&& group_is(s.file_colors@[2], seq!["md"@, "txt"@, "rst"@], Color::White)
    &&& group_is(s.file_colors@[3], seq!["py"@], Color::Cyan)
    &&& group_is(s.file_colors@[4], seq!["js"@, "ts"@, "tsx"@, "jsx"@], Color::Magenta)
    &&& group_is(s.file_colors@[5], seq!["sh"@, "bash"@, "zsh"@], Color::Red)
    &&& s.default_file_color == Color::Gray
    &&& s.size_style == fg_style(Color::DarkGray)
    &&& s.checkbox_checked@ == "[x]"@
    &&& s.checkbox_unchecked@ == "[ ]"@
    &&& s.dir_icon@ == "[DIR]"@
    &&& s.parent_icon@ == " .. "@
    &&& s.symlink_icon@ == "[LNK]"@
}

impl Default for FileExplorerStyle {
    fn default() -> (s: Self)
        ensures
            is_default_explorer_style(s),
    {
        FileExplorerStyle {
            border_style: fg(Color::Cyan),
            cursor_style: fg_bg(Color::Black, Color::Cyan).add_modifier(Modifier::bold()),
            dir_style: fg(Color::Blue).add_modifier(Modifier::bold()),
            file_colors: vec![
                (vec!["rs"], Color::Yellow),
                (vec!["toml", "json", "yaml", "yml"], Color::Green),
                (vec!["md", "txt", "rst"], Color::White),
                (vec!["py"], Color::Cyan),
                (vec!["js", "ts", "tsx", "jsx"], Color::Magenta),
                (vec!["sh", "bash", "zsh"], Color::Red),
            ],
            default_file_color: Color::Gray,
            size_style: fg(Color::DarkGray),
            checkbox_checked: "[x]",
            checkbox_unchecked: "[ ]",
            dir_icon: "[DIR]",
            parent_icon: " .. ",
            symlink_icon: "[LNK]",
        }
    }
}

impl FileExplorerStyle {
    /// The color of files with extension `ext`: that of the first group
    /// holding it, or the default color.
    pub fn color_for_extension(&self, ext: Option<&str>) -> (c: Color)
        ensures
            c == match ext {
                Some(e) => color_from(self.file_colors@, 0, e@, self.default_file_color),
                None => self.default_file_color,
            },
    {
        match ext {
            Some(e) => {
                let mut i: usize = 0;
                while i < self.file_colors.len()
                    invariant
                        ext == Some(e),
                        i <= self.file_colors@.len(),
                        color_from(self.file_colors@, i as int, e@, self.default_file_color)
                            == color_from(self.file_colors@, 0, e@, self.default_file_color),
                    decreases self.file_colors@.len() - i,
                {
                    let group = &self.file_colors[i];
                    let mut k: usize = 0;
                    while k < group.0.len()
                        invariant
                            ext == Some(e),
                            k <= group.0@.len(),
                            i < self.file_colors@.len(),
                            *group == self.file_colors@[i as int],
                            color_from(self.file_colors@, i as int, e@, self.default_file_color)
                                == color_from(self.file_colors@, 0, e@, self.default_file_color),
                            forall|m: int| 0 <= m < k ==> (#[trigger] group.0@[m])@ != e@,
                        decreases group.0@.len() - k,
                    {
                        if str_eq(group.0[k], e) {
                            assert(group_has(*group, e@));
                            return group.1;
                        }
                        k = k + 1;
                    }
                    i = i + 1;
                }
                self.default_file_color
            },
            None => self.default_file_color,
        }
    }
}


/// The file explorer widget: a state and a style.
pub struct FileExplorer<'a> {
    pub state: &'a FileExplorerState,
    pub style: FileExplorerStyle,
}

/// The index in `entries` of the `d`-th entry shown.
pub open spec fn shown_entry(st: FileExplorerState, d: int) -> int {
    match st.filtered_indices {
        Some(v) => v@[d] as int,
        None => d,
    }
}

/// The name as shown in `nw` columns: cut to `nw - 3` bytes with "..." when
/// its UTF-8 encoding is longer than `nw` bytes.
pub open spec fn shown_name(name: Seq<char>, nw: int) -> Seq<char> {
    let bytes = encode_utf8(name);
    if bytes.len() > nw {
        decode_utf8(bytes.subrange(0, if nw >= 3 { nw - 3 } else { 0 })) + "..."@
    } else {
        name
    }
}

/// The entries shown from the scroll offset on, one per line of `inner`.
pub open spec fn explorer_row_count(st: FileExplorerState, inner: Rect) -> int {
    dropdown_row_count(shown_count(st), st.scroll as int, inner.height as int)
}

/// The spans of the line for the `d`-th entry shown: cursor mark, check
/// box (files only), icon, name padded to its column, size right-aligned
/// in 10 columns; each span in the cursor style on the cursor's line.
pub open spec fn explorer_line(
    st: FileExplorerState,
    sty: FileExplorerStyle,
    inner: Rect,
    d: int,
) -> Seq<(Seq<char>, Style)> {
    let ei = shown_entry(st, d);
    let e = st.entries@[ei];
    let cur = d == st.cursor_index;
    let base = if cur { sty.cursor_style } else { plain_style() };
    let checkbox = match e.entry_type {
        EntryType::File { .. } => if text_set(st.selected_files@).contains(e.path@) {
            sty.checkbox_checked@
        } else {
            sty.checkbox_unchecked@
        },
        _ => "   "@,
    };
    let icon = match e.entry_type {
        EntryType::Directory => sty.dir_icon@,
        EntryType::ParentDir => sty.parent_icon@,
        EntryType::File { .. } => "     "@,
        EntryType::Symlink { .. } => sty.symlink_icon@,
    };
    let name_style = if cur {
        sty.cursor_style
    } else {
        match e.entry_type {
            EntryType::Directory | EntryType::ParentDir => sty.dir_style,
            EntryType::File { extension, .. } => fg_style(
                match extension {
                    Some(x) => color_from(sty.file_colors@, 0, x@, sty.default_file_color),
                    None => sty.default_file_color,
                },
            ),
            EntryType::Symlink { .. } => fg_style(Color::Magenta),
        }
    };
    let size_col = match e.entry_type {
        EntryType::File { size, .. } => size_text(size),
        _ => Seq::<char>::empty(),
    };
    let nw = sat_sub16(inner.width, 22) as int;
    seq![
        (if cur { ">"@ } else { " "@ }, base),
        (" "@, base),
        (checkbox, base),
        (" "@, base),
        (icon, base),
        (" "@, base),
        (pad_right(shown_name(e.name@, nw), nw), name_style),
        (pad_left(size_col, 10), if cur { sty.cursor_style } else { sty.size_style }),
    ]
}

/// The filter, when there is one, points at entries.
pub open spec fn filter_in_range(st: FileExplorerState) -> bool {
    st.filtered_indices matches Some(v) ==> forall|k: int| 0 <= k < v@.len() ==> (#[trigger] v@[k]) < st.entries@.len()
}

/// Every name shown that is cut is cut at a character boundary.
pub open spec fn names_cut_at_boundaries(st: FileExplorerState, inner: Rect) -> bool {
    let nw = sat_sub16(inner.width, 22) as int;
    forall|d: int| #![trigger shown_entry(st, d)] st.scroll <= d < st.scroll + explorer_row_count(st, inner) ==> {
        let bytes = encode_utf8(st.entries@[shown_entry(st, d)].name@);
        bytes.len() > nw ==> is_char_boundary(bytes, if nw >= 3 { nw - 3 } else { 0 })
    }
}

impl<'a> FileExplorer<'a> {
    /// An explorer over `state` with the default style.
    pub fn new(state: &'a FileExplorerState) -> (x: Self)
        ensures
            x.state == state,
            is_default_explorer_style(x.style),
    {
        FileExplorer { state, style: FileExplorerStyle::default() }
    }

    /// Sets the style.
    pub fn style(self, style: FileExplorerStyle) -> (x: Self)
        ensures
            x.state == self.state,
            x.style == style,
    {
        FileExplorer { state: self.state, style }
    }

    /// The name of an entry as shown in `nw` columns (see `shown_name`).
    fn display_name(name: &str, nw: usize) -> (r: String)
        requires
            encode_utf8(name@).len() > nw ==> is_char_boundary(encode_utf8(name@), if nw >= 3 { nw - 3 } else { 0 }),
        ensures
            r@ == shown_name(name@, nw as int),
    {
        if name.as_bytes().len() > nw {
            let cut = nw.saturating_sub(3);
            let (head, _) = name.split_at(cut);
            proof {
                broadcast use vstd::utf8::encode_utf8_decode_utf8;
                assert(head@ == decode_utf8(encode_utf8(head@)));
            }
            concat(head, "...")
        } else {
            string_from_str(name)
        }
    }

    /// The lines of the listing inside `inner`: from the scroll offset on,
    /// one line per entry shown (see `explorer_line`), a file's size in the
    /// form `format_size` gives.
    pub fn build_lines(&self, inner: Rect) -> (r: Vec<Vec<(String, Style)>>)
        requires
            filter_in_range(*self.state),
            names_cut_at_boundaries(*self.state, inner),
        ensures
            r@.len() == explorer_row_count(*self.state, inner),
            forall|k: int| 0 <= k < r@.len() ==> spans_match(
                (#[trigger] r@[k])@,
                explorer_line(*self.state, self.style, inner, self.state.scroll + k),
            ),
    {
        let st = self.state;
        let count = st.visible_count();
        let h = inner.height as usize;
        let scroll = st.scroll as usize;
        let nw = (if inner.width >= 22 { inner.width - 22 } else { 0 }) as usize;
        let mut lines: Vec<Vec<(String, Style)>> = Vec::new();
        let mut d: usize = scroll;
        while d < count && d - scroll < h
            invariant
                count == shown_count(*st),
                h == inner.height,
                scroll == st.scroll,
                nw == sat_sub16(inner.width, 22),
                filter_in_range(*st),
                names_cut_at_boundaries(*st, inner),
                scroll <= d,
                d - scroll <= h,
                scroll <= count ==> d <= count,
                scroll > count ==> d == scroll,
                lines@.len() == d - scroll,
                forall|k: int| 0 <= k < lines@.len() ==> spans_match(
                    (#[trigger] lines@[k])@,
                    explorer_line(*st, self.style, inner, st.scroll + k),
                ),
            decreases count - d,
        {
            let ei = match &st.filtered_indices {
                Some(v) => v[d],
                None => d,
            };
            assert(ei == shown_entry(*st, d as int));
            let e = &st.entries[ei];
            let cur = d == st.cursor_index;
            let base = if cur { self.style.cursor_style } else { Style::new() };
            let checkbox = match &e.entry_type {
                EntryType::File { .. } => if contains_text(&st.selected_files, e.path.as_str()) {
                    self.style.checkbox_checked
                } else {
                    self.style.checkbox_unchecked
                },
                _ => "   ",
            };
            let icon = match &e.entry_type {
                EntryType::Directory => self.style.dir_icon,
                EntryType::ParentDir => self.style.parent_icon,
                EntryType::File { .. } => "     ",
                EntryType::Symlink { .. } => self.style.symlink_icon,
            };
            let name_style = if cur {
                self.style.cursor_style
            } else {
                match &e.entry_type {
                    EntryType::Directory | EntryType::ParentDir => self.style.dir_style,
                    EntryType::File { extension, .. } => {
                        let ext = match extension {
                            Some(x) => Some(x.as_str()),
                            None => None,
                        };
                        fg(self.style.color_for_extension(ext))
                    },
                    EntryType::Symlink { .. } => fg(Color::Magenta),
                }
            };
            let size_text = match &e.entry_type {
                EntryType::File { size, .. } => format_size(*size),
                _ => String::new(),
            };
            proof {
                assert(st.scroll <= d < st.scroll + explorer_row_count(*st, inner));
                assert(shown_entry(*st, d as int) == ei);
            }
            let name = Self::display_name(e.name.as_str(), nw);
            let mut line: Vec<(String, Style)> = Vec::new();
            line.push((string_from_str(if cur { ">" } else { " " }), base));
            line.push((string_from_str(" "), base));
            line.push((string_from_str(checkbox), base));
            line.push((string_from_str(" "), base));
            line.push((string_from_str(icon), base));
            line.push((string_from_str(" "), base));
            line.push((pad_right_str(name.as_str(), nw), name_style));
            line.push((pad_left_str(size_text.as_str(), 10), if cur { self.style.cursor_style } else { self.style.size_style }));
            proof {
                let ex = explorer_line(*st, self.style, inner, d as int);
                assert(spans_match(line@, ex));
            }
            lines.push(line);
            d = d + 1;
        }
        lines
    }
}


impl<'a> FileExplorer<'a> {
    /// Whether `build_lines` can draw the listing inside `inner`: the
    /// filter points at entries, and every name shown that must be cut is
    /// cut at a character boundary.
    pub fn lines_drawable(&self, inner: Rect) -> (b: bool)
        ensures
            b == (filter_in_range(*self.state) && names_cut_at_boundaries(*self.state, inner)),
    {
        let st = self.state;
        if let Some(v) = &st.filtered_indices {
            let mut k: usize = 0;
            while k < v.len()
                invariant
                    st == self.state,
                    k <= v@.len(),
                    st.filtered_indices matches Some(w) && w@ == v@,
                    forall|j: int| 0 <= j < k ==> (#[trigger] v@[j]) < st.entries@.len(),
                decreases v@.len() - k,
            {
                if v[k] >= st.entries.len() {
                    assert(!filter_in_range(*st));
                    return false;
                }
                k = k + 1;
            }
        }
        assert(filter_in_range(*st));
        let count = st.visible_count();
        let h = inner.height as usize;
        let scroll = st.scroll as usize;
        let nw = (if inner.width >= 22 { inner.width - 22 } else { 0 }) as usize;
        let mut d: usize = scroll;
        while d < count && d - scroll < h
            invariant
                st == self.state,
                count == shown_count(*st),
                h == inner.height,
                scroll == st.scroll,
                nw == sat_sub16(inner.width, 22),
                filter_in_range(*st),
                scroll <= d,
                d - scroll <= h,
                scroll <= count ==> d <= count,
                scroll > count ==> d == scroll,
                forall|e: int| #![trigger shown_entry(*st, e)] st.scroll <= e < d ==> {
                    let bytes = encode_utf8(st.entries@[shown_entry(*st, e)].name@);
                    bytes.len() > nw ==> is_char_boundary(bytes, if nw >= 3 { nw - 3 } else { 0 })
                },
            decreases count - d,
        {
            let ei = match &st.filtered_indices {
                Some(v) => v[d],
                None => d,
            };
            assert(ei == shown_entry(*st, d as int));
            let name = st.entries[ei].name.as_str();
            assert(name.spec_bytes() == encode_utf8(st.entries@[shown_entry(*st, d as int)].name@));
            if name.as_bytes().len() > nw {
                let cut = if nw >= 3 { nw - 3 } else { 0 };
                if !name.is_char_boundary(cut) {
                    assert(st.scroll <= d < st.scroll + explorer_row_count(*st, inner));
                    assert(!names_cut_at_boundaries(*st, inner));
                    return false;
                }
            }
            assert({
                let bytes = encode_utf8(st.entries@[shown_entry(*st, d as int)].name@);
                bytes.len() > nw ==> is_char_boundary(bytes, if nw >= 3 { nw - 3 } else { 0 })
            });
            d = d + 1;
        }
        assert(d == st.scroll + explorer_row_count(*st, inner));
        true
    }
}

impl<'a> FileExplorer<'a> {
    /// Where the explorer draws in `area`: the listing's bordered box (at
    /// least one row) above a footer of 3 rows, as ratatui's layout splits
    /// them, and the inside of that box.
    pub fn areas(&self, area: Rect) -> (r: (Rect, Rect, Rect))
        ensures
            r.0 == split_of(Direction::Vertical, Constraint::Min(1), Constraint::Length(3), area).0,
            r.2 == split_of(Direction::Vertical, Constraint::Min(1), Constraint::Length(3), area).1,
            r.1 == bordered_inner(r.0),
    {
        let (list, footer) = split_two(Direction::Vertical, Constraint::Min(1), Constraint::Length(3), area);
        (list, block_inner(list), footer)
    }
}

impl<'a> FileExplorer<'a> {
    /// The title of the listing's border: the directory, and how many
    /// files are selected when some are.
    pub fn title(&self) -> (t: String)
        ensures
            self.state.selected_files@.len() > 0 ==> t@ == " "@ + self.state.current_dir@ + " ("@
                + decimal(self.state.selected_files@.len()) + " selected) "@,
            self.state.selected_files@.len() == 0 ==> t@ == " "@ + self.state.current_dir@ + " "@,
    {
        let n = self.state.selected_files.len();
        let a = concat(" ", self.state.current_dir.as_str());
        if n > 0 {
            let b = concat(a.as_str(), " (");
            let c = concat(b.as_str(), usize_to_string(n).as_str());
            concat(c.as_str(), " selected) ")
        } else {
            concat(a.as_str(), " ")
        }
    }
}

/// A key name in green followed by its action in the plain style.
pub open spec fn hint_pair(key: Seq<char>, action: Seq<char>) -> Seq<(Seq<char>, Style)> {
    seq![(key, fg_style(Color::Green)), (action, plain_style())]
}

/// Appends a key hint: the key in green, then the action.
fn push_hint(line: &mut Vec<(String, Style)>, key: &str, action: &str)
    ensures
        final(line)@.len() == old(line)@.len() + 2,
        forall|k: int| 0 <= k < old(line)@.len() ==> final(line)@[k] == old(line)@[k],
        final(line)@[old(line)@.len() as int].0@ == key@,
        final(line)@[old(line)@.len() as int].1 == fg_style(Color::Green),
        final(line)@[old(line)@.len() as int + 1].0@ == action@,
        final(line)@[old(line)@.len() as int + 1].1 == plain_style(),
{
    line.push((string_from_str(key), fg(Color::Green)));
    line.push((string_from_str(action), Style::new()));
}

/// The key hints under the listing: two lines while browsing, one while
/// searching.
pub fn build_footer(mode: FileExplorerMode) -> (r: Vec<Vec<(String, Style)>>)
    ensures
        mode == FileExplorerMode::Browse ==> r@.len() == 2
            && spans_match(r@[0]@, hint_pair("↑↓"@, ":Move "@) + hint_pair("Enter"@, ":Open "@)
                + hint_pair("Space"@, ":Select "@) + hint_pair("/"@, ":Search "@) + hint_pair("."@, ":Hidden"@))
            && spans_match(r@[1]@, hint_pair("a"@, ":All "@) + hint_pair("n"@, ":None "@) + hint_pair("Esc"@, ":Close"@)),
        mode == FileExplorerMode::Search ==> r@.len() == 1
            && spans_match(r@[0]@, hint_pair("Enter"@, ":Confirm "@) + hint_pair("Esc"@, ":Cancel"@)),
{
    let mut r: Vec<Vec<(String, Style)>> = Vec::new();
    match mode {
        FileExplorerMode::Browse => {
            let mut a: Vec<(String, Style)> = Vec::new();
            push_hint(&mut a, "↑↓", ":Move ");
            push_hint(&mut a, "Enter", ":Open ");
            push_hint(&mut a, "Space", ":Select ");
            push_hint(&mut a, "/", ":Search ");
            push_hint(&mut a, ".", ":Hidden");
            let mut b: Vec<(String, Style)> = Vec::new();
            push_hint(&mut b, "a", ":All ");
            push_hint(&mut b, "n", ":None ");
            push_hint(&mut b, "Esc", ":Close");
            proof {
                assert(spans_match(a@, hint_pair("↑↓"@, ":Move "@) + hint_pair("Enter"@, ":Open "@)
                    + hint_pair("Space"@, ":Select "@) + hint_pair("/"@, ":Search "@) + hint_pair("."@, ":Hidden"@)));
                assert(spans_match(b@, hint_pair("a"@, ":All "@) + hint_pair("n"@, ":None "@) + hint_pair("Esc"@, ":Close"@)));
            }
            r.push(a);
            r.push(b);
        },
        FileExplorerMode::Search => {
            let mut a: Vec<(String, Style)> = Vec::new();
            push_hint(&mut a, "Enter", ":Confirm ");
            push_hint(&mut a, "Esc", ":Cancel");
            proof {
                assert(spans_match(a@, hint_pair("Enter"@, ":Confirm "@) + hint_pair("Esc"@, ":Cancel"@)));
            }
            r.push(a);
        },
    }
    r
}

/// The spans of the search bar: a bold yellow label, the query, and a
/// blinking cursor.
pub fn search_bar_spans(query: &str) -> (r: Vec<(String, Style)>)
    ensures
        spans_match(r@, seq![
            ("Search: "@, with_modifier(fg_style(Color::Yellow), Modifier { bits: 1 })),
            (query@, fg_style(Color::White)),
            ("_"@, with_modifier(fg_style(Color::White), Modifier { bits: 16 })),
        ]),
{
    let mut r: Vec<(String, Style)> = Vec::new();
    r.push((string_from_str("Search: "), fg(Color::Yellow).add_modifier(Modifier::bold())));
    r.push((string_from_str(query), fg(Color::White)));
    r.push((string_from_str("_"), fg(Color::White).add_modifier(Modifier::slow_blink())));
    r
}

} // verus!
