//! A paragraph of styled lines, word-wrapped at spaces and scrolled by
//! wrapped line, drawn without trailing padding.
use vstd::prelude::*;
use crate::geometry::Rect;
use crate::style::Style;
use crate::text::chars_of;

verus! {

/// A character with its style.
pub type Cell = (char, Style);

/// The cells of one span: each character of `text` in style `st`.
pub open spec fn span_cells(text: Seq<char>, st: Style) -> Seq<Cell> {
    Seq::new(text.len(), |i: int| (text[i], st))
}

/// The cells of a line: the cells of its spans, in order.
pub open spec fn line_cells(spans: Seq<(String, Style)>) -> Seq<Cell>
    decreases spans.len(),
{
    if spans.len() == 0 {
        Seq::empty()
    } else {
        line_cells(spans.drop_last()) + span_cells(spans.last().0@, spans.last().1)
    }
}

/// The last space at or after `lo` and before `k`, or `lo - 1` where there
/// is none.
pub open spec fn last_space(cs: Seq<Cell>, lo: int, k: int) -> int
    decreases k - lo,
{
    if k <= lo {
        lo - 1
    } else if cs[k - 1].0 == ' ' {
        k - 1
    } else {
        last_space(cs, lo, k - 1)
    }
}

/// `last_space` lies in `[lo - 1, k)`.
pub proof fn lemma_last_space_range(cs: Seq<Cell>, lo: int, k: int)
    requires
        lo <= k,
    ensures
        lo - 1 <= last_space(cs, lo, k) < k,
    decreases k - lo,
{
    if k > lo && cs[k - 1].0 != ' ' {
        lemma_last_space_range(cs, lo, k - 1);
    }
}

/// Where a piece of at most `w` cells starting at `start` ends: just after
/// its last space, or after `w` cells where it has none.
pub open spec fn break_at(cs: Seq<Cell>, start: int, w: int) -> int {
    let l = last_space(cs, start, start + w);
    if l >= start { l + 1 } else { start + w }
}

/// The wrapped pieces of `cs` from `start`: the rest where it fits in `w`
/// cells, else the piece up to `break_at`, then the pieces after the spaces
/// that follow it.
pub open spec fn wrap_from(cs: Seq<Cell>, w: int, start: int) -> Seq<Seq<Cell>>
    decreases cs.len() - start, 0int,
{
    if w <= 0 || start < 0 || start >= cs.len() {
        Seq::empty()
    } else if cs.len() - start <= w {
        seq![cs.subrange(start, cs.len() as int)]
    } else {
        proof {
            lemma_last_space_range(cs, start, start + w);
        }
        let b = break_at(cs, start, w);
        seq![cs.subrange(start, b)] + wrap_skip(cs, w, b)
    }
}

/// The wrapped pieces after skipping the spaces at `i`.
pub open spec fn wrap_skip(cs: Seq<Cell>, w: int, i: int) -> Seq<Seq<Cell>>
    decreases cs.len() - i, 1int,
{
    if 0 <= i < cs.len() && cs[i].0 == ' ' {
        wrap_skip(cs, w, i + 1)
    } else {
        wrap_from(cs, w, i)
    }
}

/// The wrapped lines of one line: one empty line for an empty line.
pub open spec fn wrap_line(cs: Seq<Cell>, w: int) -> Seq<Seq<Cell>> {
    if cs.len() == 0 { seq![Seq::empty()] } else { wrap_from(cs, w, 0) }
}

/// The wrapped lines of all `lines` at width `w`; none at width 0.
pub open spec fn wrap_all(lines: Seq<Vec<(String, Style)>>, w: int) -> Seq<Seq<Cell>>
    decreases lines.len(),
{
    if w <= 0 || lines.len() == 0 {
        Seq::empty()
    } else {
        wrap_all(lines.drop_last(), w) + wrap_line(line_cells(lines.last()@), w)
    }
}

/// The rows drawn in an area `height` rows by `width` columns: the wrapped
/// lines from `scroll` on, at most `height` of them, each cut at `width`.
pub open spec fn visible_rows(wrapped: Seq<Seq<Cell>>, scroll: int, height: int, width: int) -> Seq<Seq<Cell>> {
    let n = if wrapped.len() - scroll < 0 { 0 } else if wrapped.len() - scroll < height { wrapped.len() - scroll } else { height };
    Seq::new(n as nat, |k: int| {
        let row = wrapped[scroll + k];
        if row.len() <= width { row } else { row.take(width) }
    })
}

/// Every piece of `wrap_from` is at most `w` cells.
proof fn lemma_wrap_from_fits(cs: Seq<Cell>, w: int, start: int)
    ensures
        forall|k: int| 0 <= k < wrap_from(cs, w, start).len() ==> (#[trigger] wrap_from(cs, w, start)[k]).len() <= w,
    decreases cs.len() - start, 0int,
{
    if w <= 0 || start < 0 || start >= cs.len() {
    } else if cs.len() - start <= w {
    } else {
        lemma_last_space_range(cs, start, start + w);
        let b = break_at(cs, start, w);
        lemma_wrap_skip_fits(cs, w, b);
        let r = wrap_from(cs, w, start);
        assert forall|k: int| 0 <= k < r.len() implies (#[trigger] r[k]).len() <= w by {
            if k > 0 {
                assert(r[k] == wrap_skip(cs, w, b)[k - 1]);
            }
        }
    }
}

/// Every piece of `wrap_skip` is at most `w` cells.
proof fn lemma_wrap_skip_fits(cs: Seq<Cell>, w: int, i: int)
    ensures
        forall|k: int| 0 <= k < wrap_skip(cs, w, i).len() ==> (#[trigger] wrap_skip(cs, w, i)[k]).len() <= w,
    decreases cs.len() - i, 1int,
{
    if 0 <= i < cs.len() && cs[i].0 == ' ' {
        lemma_wrap_skip_fits(cs, w, i + 1);
        assert(wrap_skip(cs, w, i) == wrap_skip(cs, w, i + 1));
    } else {
        lemma_wrap_from_fits(cs, w, i);
        assert(wrap_skip(cs, w, i) == wrap_from(cs, w, i));
    }
}

/// Word wrapping never makes a line wider than the wrapping width: every
/// wrapped line of a paragraph has at most `w` cells.
pub proof fn wrapped_lines_fit(lines: Seq<Vec<(String, Style)>>, w: int)
    ensures
        forall|k: int| 0 <= k < wrap_all(lines, w).len() ==> (#[trigger] wrap_all(lines, w)[k]).len() <= w,
    decreases lines.len(),
{
    if w <= 0 || lines.len() == 0 {
    } else {
        wrapped_lines_fit(lines.drop_last(), w);
        let cs = line_cells(lines.last()@);
        lemma_wrap_from_fits(cs, w, 0);
        let prev = wrap_all(lines.drop_last(), w);
        let r = wrap_all(lines, w);
        assert forall|k: int| 0 <= k < r.len() implies (#[trigger] r[k]).len() <= w by {
            if k >= prev.len() {
                assert(r[k] == wrap_line(cs, w)[k - prev.len()]);
            } else {
                assert(r[k] == prev[k]);
            }
        }
    }
}

/// `piece` is the run of `cs` from `a` to `b`.
pub open spec fn is_slice(cs: Seq<Cell>, piece: Seq<Cell>, a: int, b: int) -> bool {
    0 <= a <= b <= cs.len() && piece == cs.subrange(a, b)
}

/// `piece` is a run of consecutive cells of `cs`.
pub open spec fn is_run(cs: Seq<Cell>, piece: Seq<Cell>) -> bool {
    exists|a: int, b: int| #[trigger] is_slice(cs, piece, a, b)
}

/// Every piece of `wrap_from` is a run of consecutive cells of the line.
proof fn lemma_wrap_from_runs(cs: Seq<Cell>, w: int, start: int)
    ensures
        forall|k: int| 0 <= k < wrap_from(cs, w, start).len() ==> #[trigger] is_run(cs, wrap_from(cs, w, start)[k]),
    decreases cs.len() - start, 0int,
{
    let r = wrap_from(cs, w, start);
    if w <= 0 || start < 0 || start >= cs.len() {
    } else if cs.len() - start <= w {
        assert forall|k: int| 0 <= k < r.len() implies #[trigger] is_run(cs, r[k]) by {
            assert(is_slice(cs, r[k], start, cs.len() as int));
        }
    } else {
        lemma_last_space_range(cs, start, start + w);
        let b = break_at(cs, start, w);
        lemma_wrap_skip_runs(cs, w, b);
        let rest = wrap_skip(cs, w, b);
        assert(r == seq![cs.subrange(start, b)] + rest);
        assert forall|k: int| 0 <= k < r.len() implies #[trigger] is_run(cs, r[k]) by {
            if k == 0 {
                assert(is_slice(cs, r[k], start, b));
            } else {
                let p = rest[k - 1];
                assert(r[k] == p);
                assert(is_run(cs, p));
            }
        }
    }
}

/// Every piece of `wrap_skip` is a run of consecutive cells of the line.
proof fn lemma_wrap_skip_runs(cs: Seq<Cell>, w: int, i: int)
    ensures
        forall|k: int| 0 <= k < wrap_skip(cs, w, i).len() ==> #[trigger] is_run(cs, wrap_skip(cs, w, i)[k]),
    decreases cs.len() - i, 1int,
{
    if 0 <= i < cs.len() && cs[i].0 == ' ' {
        lemma_wrap_skip_runs(cs, w, i + 1);
        assert(wrap_skip(cs, w, i) == wrap_skip(cs, w, i + 1));
    } else {
        lemma_wrap_from_runs(cs, w, i);
        assert(wrap_skip(cs, w, i) == wrap_from(cs, w, i));
    }
}

/// Wrapping keeps every character with its style, in order: each wrapped
/// line of a line is a run of consecutive cells (character and style) of it.
pub proof fn wrapped_lines_keep_cells(spans: Seq<(String, Style)>, w: int)
    ensures
        forall|k: int| 0 <= k < wrap_line(line_cells(spans), w).len()
            ==> #[trigger] is_run(line_cells(spans), wrap_line(line_cells(spans), w)[k]),
{
    let cs = line_cells(spans);
    let r = wrap_line(cs, w);
    if cs.len() == 0 {
        assert forall|k: int| 0 <= k < r.len() implies #[trigger] is_run(cs, r[k]) by {
            assert(cs.subrange(0, 0) =~= r[k]);
            assert(is_slice(cs, r[k], 0, 0));
        }
    } else {
        lemma_wrap_from_runs(cs, w, 0);
    }
}

/// The cells of a line.
fn cells_of_line(spans: &Vec<(String, Style)>) -> (r: Vec<Cell>)
    ensures
        r@ == line_cells(spans@),
{
    let mut r: Vec<Cell> = Vec::new();
    let mut s: usize = 0;
    while s < spans.len()
        invariant
            s <= spans@.len(),
            r@ == line_cells(spans@.take(s as int)),
        decreases spans@.len() - s,
    {
        let cs = chars_of(spans[s].0.as_str());
        let st = spans[s].1;
        let ghost before = r@;
        let mut i: usize = 0;
        while i < cs.len()
            invariant
                i <= cs@.len(),
                cs@ == spans@[s as int].0@,
                st == spans@[s as int].1,
                r@ == before + span_cells(cs@, st).take(i as int),
            decreases cs@.len() - i,
        {
            r.push((cs[i], st));
            i = i + 1;
            assert(r@ =~= before + span_cells(cs@, st).take(i as int));
        }
        assert(spans@.take(s as int + 1).drop_last() =~= spans@.take(s as int));
        assert(span_cells(cs@, st).take(i as int) =~= span_cells(cs@, st));
        s = s + 1;
    }
    assert(spans@.take(spans@.len() as int) =~= spans@);
    r
}

/// The wrapped lines of one non-empty line (see `wrap_from`).
fn wrap_cells(cs: &Vec<Cell>, w: usize) -> (r: Vec<Vec<Cell>>)
    requires
        w > 0,
    ensures
        r@.len() == wrap_from(cs@, w as int, 0).len(),
        forall|k: int| 0 <= k < r@.len() ==> (#[trigger] r@[k])@ == wrap_from(cs@, w as int, 0)[k],
{
    let n = cs.len();
    let ghost whole = wrap_from(cs@, w as int, 0);
    let mut out: Vec<Vec<Cell>> = Vec::new();
    let mut start: usize = 0;
    while start < n
        invariant_except_break
            start <= n,
            n == cs@.len(),
            w > 0,
            whole == wrap_from(cs@, w as int, 0),
            out@.len() + wrap_from(cs@, w as int, start as int).len() == whole.len(),
            forall|k: int| 0 <= k < out@.len() ==> (#[trigger] out@[k])@ == whole[k],
            forall|k: int| 0 <= k < wrap_from(cs@, w as int, start as int).len() ==>
                #[trigger] wrap_from(cs@, w as int, start as int)[k] == whole[out@.len() + k],
        ensures
            out@.len() == whole.len(),
            forall|k: int| 0 <= k < out@.len() ==> (#[trigger] out@[k])@ == whole[k],
        decreases n - start,
    {
        if n - start <= w {
            let piece = slice_to_vec(cs, start, n);
            assert(wrap_from(cs@, w as int, start as int)[0] == whole[out@.len() as int]);
            out.push(piece);
            break;
        }
        let end = start + w;
        let mut k = end;
        let mut found = false;
        while k > start
            invariant_except_break
                last_space(cs@, start as int, k as int) == last_space(cs@, start as int, end as int),
                !found,
            invariant
                start <= k <= end,
                end == start + w,
                end < n,
                n == cs@.len(),
            ensures
                found ==> k > start && last_space(cs@, start as int, end as int) == k - 1,
                !found ==> last_space(cs@, start as int, end as int) == start - 1,
            decreases k,
        {
            if cs[k - 1].0 == ' ' {
                found = true;
                break;
            }
            k = k - 1;
        }
        let b = if found { k } else { end };
        proof {
            lemma_last_space_range(cs@, start as int, end as int);
            assert(b == break_at(cs@, start as int, w as int));
        }
        let ghost rest = wrap_from(cs@, w as int, start as int);
        let piece = slice_to_vec(cs, start, b);
        assert(rest[0] == whole[out@.len() as int]);
        out.push(piece);
        let mut j = b;
        while j < n && cs[j].0 == ' '
            invariant
                b <= j <= n,
                n == cs@.len(),
                wrap_skip(cs@, w as int, j as int) == wrap_skip(cs@, w as int, b as int),
            decreases n - j,
        {
            j = j + 1;
        }
        assert(wrap_skip(cs@, w as int, j as int) == wrap_from(cs@, w as int, j as int));
        assert(rest == seq![cs@.subrange(start as int, b as int)] + wrap_from(cs@, w as int, j as int));
        assert forall|k: int| 0 <= k < wrap_from(cs@, w as int, j as int).len() implies
            #[trigger] wrap_from(cs@, w as int, j as int)[k] == whole[out@.len() + k] by {
            assert(rest[k + 1] == wrap_from(cs@, w as int, j as int)[k]);
        }
        start = j;
    }
    out
}

/// The cells of `cs` from `lo` up to `hi`.
fn slice_to_vec(cs: &Vec<Cell>, lo: usize, hi: usize) -> (r: Vec<Cell>)
    requires
        lo <= hi <= cs@.len(),
    ensures
        r@ == cs@.subrange(lo as int, hi as int),
{
    let mut r: Vec<Cell> = Vec::new();
    let mut i = lo;
    while i < hi
        invariant
            lo <= i <= hi,
            hi <= cs@.len(),
            r@ == cs@.subrange(lo as int, i as int),
        decreases hi - i,
    {
        r.push(cs[i]);
        i = i + 1;
        assert(r@ =~= cs@.subrange(lo as int, i as int));
    }
    r
}

/// Styled lines, word-wrapped and scrolled.
#[derive(Debug, Clone)]
pub struct ParagraphExt {
    /// The lines, each a list of spans.
    pub lines: Vec<Vec<(String, Style)>>,
    /// Wrapped lines skipped at the top.
    pub scroll: u16,
    /// The wrapping width; the area's width where unset.
    pub width: Option<u16>,
}

impl ParagraphExt {
    /// A paragraph of `lines`, not scrolled, wrapped at the area's width.
    pub fn new(lines: Vec<Vec<(String, Style)>>) -> (p: Self)
        ensures
            p.lines@ == lines@,
            p.scroll == 0,
            p.width is None,
    {
        ParagraphExt { lines, scroll: 0, width: None }
    }

    /// Sets how many wrapped lines are skipped.
    pub fn scroll(self, scroll: u16) -> (p: Self)
        ensures
            p.lines@ == self.lines@,
            p.scroll == scroll,
            p.width == self.width,
    {
        ParagraphExt { scroll, ..self }
    }

    /// Sets the wrapping width.
    pub fn width(self, width: u16) -> (p: Self)
        ensures
            p.lines@ == self.lines@,
            p.scroll == self.scroll,
            p.width == Some(width),
    {
        ParagraphExt { width: Some(width), ..self }
    }

    /// The lines wrapped at `width` (see `wrap_all`).
    pub fn wrap_lines(&self, width: u16) -> (r: Vec<Vec<Cell>>)
        ensures
            r@.len() == wrap_all(self.lines@, width as int).len(),
            forall|k: int| 0 <= k < r@.len() ==> (#[trigger] r@[k])@ == wrap_all(self.lines@, width as int)[k],
    {
        let w = width as usize;
        let mut out: Vec<Vec<Cell>> = Vec::new();
        if w == 0 {
            return out;
        }
        let mut li: usize = 0;
        while li < self.lines.len()
            invariant
                w == width,
                w > 0,
                li <= self.lines@.len(),
                out@.len() == wrap_all(self.lines@.take(li as int), w as int).len(),
                forall|k: int| 0 <= k < out@.len() ==> (#[trigger] out@[k])@ == wrap_all(self.lines@.take(li as int), w as int)[k],
            decreases self.lines@.len() - li,
        {
            let cs = cells_of_line(&self.lines[li]);
            let ghost before = out@;
            let ghost prev = wrap_all(self.lines@.take(li as int), w as int);
            assert(self.lines@.take(li as int + 1).drop_last() =~= self.lines@.take(li as int));
            assert(self.lines@.take(li as int + 1).last() == self.lines@[li as int]);
            let ghost piece = wrap_line(cs@, w as int);
            if cs.len() == 0 {
                out.push(Vec::new());
                assert(out@[before.len() as int]@ =~= piece[0]);
            } else {
                let mut pieces = wrap_cells(&cs, w);
                let ghost ps = pieces@;
                out.append(&mut pieces);
                assert forall|k: int| 0 <= k < out@.len() implies (#[trigger] out@[k])@ == (prev + piece)[k] by {
                    if k >= before.len() {
                        assert(out@[k] == ps[k - before.len()]);
                    } else {
                        assert(out@[k] == before[k]);
                    }
                }
            }
            assert(wrap_all(self.lines@.take(li as int + 1), w as int) == prev + piece);
            li = li + 1;
        }
        assert(self.lines@.take(self.lines@.len() as int) =~= self.lines@);
        out
    }

    /// The number of wrapped lines at `width`.
    pub fn line_count(&self, width: u16) -> (n: usize)
        ensures
            n == wrap_all(self.lines@, width as int).len(),
    {
        self.wrap_lines(width).len()
    }

    /// The rows drawn in `area`: the lines wrapped at the set width (the
    /// area's where unset), from the scroll offset on, at most as many as
    /// the area has rows, each cut at the area's width.
    pub fn rows_in(&self, area: Rect) -> (r: Vec<Vec<Cell>>)
        ensures
            ({
                let w = match self.width { Some(w) => w, None => area.width };
                let v = visible_rows(wrap_all(self.lines@, w as int), self.scroll as int, area.height as int, area.width as int);
                &&& r@.len() == v.len()
                &&& forall|k: int| 0 <= k < r@.len() ==> (#[trigger] r@[k])@ == v[k]
            }),
    {
        let w = match self.width {
            Some(w) => w,
            None => area.width,
        };
        let wrapped = self.wrap_lines(w);
        let ghost all = wrap_all(self.lines@, w as int);
        let ghost v = visible_rows(all, self.scroll as int, area.height as int, area.width as int);
        let scroll = self.scroll as usize;
        let mut rows: Vec<Vec<Cell>> = Vec::new();
        let mut k: usize = 0;
        while scroll + k < wrapped.len() && k < area.height as usize
            invariant
                wrapped@.len() == all.len(),
                forall|j: int| 0 <= j < wrapped@.len() ==> (#[trigger] wrapped@[j])@ == all[j],
                v == visible_rows(all, scroll as int, area.height as int, area.width as int),
                scroll == self.scroll,
                rows@.len() == k,
                k <= v.len(),
                forall|j: int| 0 <= j < k ==> (#[trigger] rows@[j])@ == v[j],
            decreases area.height - k,
        {
            let row = &wrapped[scroll + k];
            let cut = if row.len() <= area.width as usize { row.len() } else { area.width as usize };
            let piece = slice_to_vec(row, 0, cut);
            rows.push(piece);
            assert(rows@[k as int]@ =~= v[k as int]);
            k = k + 1;
        }
        rows
    }
}

} // verus!
