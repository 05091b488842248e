//! Marquee: a line of text wider than its area scrolls through it in a
//! loop, bounces back and forth, or is cut with an ellipsis.
use vstd::prelude::*;
use crate::style::{fg, with_modifier, fg_style, plain_style, Color, Modifier, Style};
use crate::text::{
    cell_width, cell_width_of, chars_of, concat, pad_right, pad_right_str, spaces, str_width,
    str_width_of, string_from_chars, trim_end, trim_end_spec,
};

verus! {

/// Direction of a bouncing marquee.
#[derive(Debug, Clone, Copy, PartialEq, Eq, Structural, Default)]
pub enum ScrollDir {
    /// The offset grows: the text moves left.
    #[default]
    Left,
    /// The offset shrinks: the text moves right.
    Right,
}

/// How a marquee shows text wider than its area.
#[derive(Debug, Clone, Copy, PartialEq, Eq, Structural, Default)]
pub enum MarqueeMode {
    /// The text loops, followed by the separator.
    #[default]
    Continuous,
    /// The text scrolls to its end and back.
    Bounce,
    /// The text is cut, with an ellipsis.
    Static,
}

/// Animation state of a marquee.
#[derive(Debug, Clone, Copy, PartialEq, Eq, Structural)]
pub struct MarqueeState {
    /// Scroll offset, in display columns.
    pub offset: usize,
    /// Direction, in bounce mode.
    pub direction: ScrollDir,
    /// Ticks left to wait at an edge.
    pub paused_ticks: usize,
}

/// Colors, speed and mode of a marquee.
#[derive(Debug, Clone, Copy)]
pub struct MarqueeStyle {
    pub text_style: Style,
    /// Columns scrolled per tick.
    pub scroll_speed: usize,
    /// Ticks to wait at each edge (bounce mode).
    pub pause_at_edge: usize,
    pub mode: MarqueeMode,
    /// Put between two copies of the text (continuous mode).
    pub separator: &'static str,
    /// Put after the cut text (static mode).
    pub ellipsis: &'static str,
}

/// The state after one tick, for a text `tw` columns wide in a viewport
/// `vw` columns wide.
pub open spec fn tick_spec(s: MarqueeState, tw: usize, vw: usize, st: MarqueeStyle) -> MarqueeState {
    if tw <= vw {
        MarqueeState { offset: 0, ..s }
    } else if s.paused_ticks > 0 {
        MarqueeState { paused_ticks: (s.paused_ticks - 1) as usize, ..s }
    } else {
        match st.mode {
            MarqueeMode::Continuous => MarqueeState {
                offset: ((s.offset + st.scroll_speed) % (tw + str_width_of(st.separator@))) as usize,
                ..s
            },
            MarqueeMode::Bounce => {
                let max = (tw - vw) as usize;
                match s.direction {
                    ScrollDir::Left => {
                        let o = if s.offset + st.scroll_speed <= usize::MAX {
                            (s.offset + st.scroll_speed) as usize
                        } else {
                            usize::MAX
                        };
                        if o >= max {
                            MarqueeState { offset: max, direction: ScrollDir::Right, paused_ticks: st.pause_at_edge }
                        } else {
                            MarqueeState { offset: o, ..s }
                        }
                    },
                    ScrollDir::Right => if s.offset <= st.scroll_speed {
                        MarqueeState { offset: 0, direction: ScrollDir::Left, paused_ticks: st.pause_at_edge }
                    } else {
                        MarqueeState { offset: (s.offset - st.scroll_speed) as usize, ..s }
                    },
                }
            },
            MarqueeMode::Static => s,
        }
    }
}

/// A tick would add the speed to the offset in continuous mode.
pub open spec fn tick_loops(s: MarqueeState, tw: usize, vw: usize, st: MarqueeStyle) -> bool {
    tw > vw && s.paused_ticks == 0 && st.mode == MarqueeMode::Continuous
}

impl MarqueeState {
    /// At the start, moving left, not paused.
    pub fn new() -> (s: Self)
        ensures
            s == (MarqueeState { offset: 0, direction: ScrollDir::Left, paused_ticks: 0 }),
    {
        MarqueeState { offset: 0, direction: ScrollDir::Left, paused_ticks: 0 }
    }

    /// Back to the start.
    pub fn reset(&mut self)
        ensures
            *final(self) == (MarqueeState { offset: 0, direction: ScrollDir::Left, paused_ticks: 0 }),
    {
        self.offset = 0;
        self.direction = ScrollDir::Left;
        self.paused_ticks = 0;
    }

    /// Advances the animation by one tick for a text `text_width` columns
    /// wide in a viewport `viewport_width` columns wide. A text that fits
    /// goes back to offset 0. A pause at an edge counts down first. In
    /// continuous mode the offset moves by the speed, modulo the width of
    /// text and separator; in bounce mode it moves towards the edge and
    /// turns there, pausing.
    pub fn tick(&mut self, text_width: usize, viewport_width: usize, style: &MarqueeStyle)
        requires
            tick_loops(*old(self), text_width, viewport_width, *style) ==> {
                &&& old(self).offset + style.scroll_speed <= usize::MAX
                &&& text_width + str_width_of(style.separator@) <= usize::MAX
            },
        ensures
            *final(self) == tick_spec(*old(self), text_width, viewport_width, *style),
    {
        if text_width <= viewport_width {
            self.offset = 0;
            return;
        }
        if self.paused_ticks > 0 {
            self.paused_ticks -= 1;
            return;
        }
        match style.mode {
            MarqueeMode::Continuous => {
                let total_width = text_width + str_width(style.separator);
                self.offset = (self.offset + style.scroll_speed) % total_width;
            },
            MarqueeMode::Bounce => {
                let max_offset = text_width - viewport_width;
                match self.direction {
                    ScrollDir::Left => {
                        self.offset = self.offset.saturating_add(style.scroll_speed);
                        if self.offset >= max_offset {
                            self.offset = max_offset;
                            self.direction = ScrollDir::Right;
                            self.paused_ticks = style.pause_at_edge;
                        }
                    },
                    ScrollDir::Right => {
                        if self.offset <= style.scroll_speed {
                            self.offset = 0;
                            self.direction = ScrollDir::Left;
                            self.paused_ticks = style.pause_at_edge;
                        } else {
                            self.offset = self.offset - style.scroll_speed;
                        }
                    },
                }
            },
            MarqueeMode::Static => {},
        }
    }

    /// Advances the animation by one tick (see `tick`) where the sums that
    /// tick makes fit in `usize`, and returns whether it did; the state is
    /// unchanged where they would not.
    pub fn tick_checked(&mut self, text_width: usize, viewport_width: usize, style: &MarqueeStyle) -> (done: bool)
        ensures
            done == !(tick_loops(*old(self), text_width, viewport_width, *style) && (old(self).offset
                + style.scroll_speed > usize::MAX || text_width + str_width_of(style.separator@) > usize::MAX)),
            done ==> *final(self) == tick_spec(*old(self), text_width, viewport_width, *style),
            !done ==> *final(self) == *old(self),
    {
        let loops = text_width > viewport_width && self.paused_ticks == 0 && style.mode == MarqueeMode::Continuous;
        if loops {
            let sep = str_width(style.separator);
            if self.offset > usize::MAX - style.scroll_speed || text_width > usize::MAX - sep {
                return false;
            }
        }
        self.tick(text_width, viewport_width, style);
        true
    }
}

impl Default for MarqueeState {
    fn default() -> (s: Self)
        ensures
            s == (MarqueeState { offset: 0, direction: ScrollDir::Left, paused_ticks: 0 }),
    {
        Self::new()
    }
}

/// Every field of `s` but the text style and mode has its default value.
pub open spec fn marquee_style_defaults(s: MarqueeStyle) -> bool {
    &&& s.scroll_speed == 1
    &&& s.pause_at_edge == 3
    &&& s.separator@ == "   "@
    &&& s.ellipsis@ == "..."@
}

impl Default for MarqueeStyle {
    fn default() -> (s: Self)
        ensures
            marquee_style_defaults(s),
            s.text_style == plain_style(),
            s.mode == MarqueeMode::Continuous,
    {
        MarqueeStyle {
            text_style: Style::new(),
            scroll_speed: 1,
            pause_at_edge: 3,
            mode: MarqueeMode::Continuous,
            separator: "   ",
            ellipsis: "...",
        }
    }
}

impl MarqueeStyle {
    /// The default style.
    pub fn new() -> (s: Self)
        ensures
            marquee_style_defaults(s),
            s.text_style == plain_style(),
            s.mode == MarqueeMode::Continuous,
    {
        Self::default()
    }

    /// Sets the text style.
    pub fn text_style(self, style: Style) -> (s: Self)
        ensures
            s == (MarqueeStyle { text_style: style, ..self }),
    {
        MarqueeStyle { text_style: style, ..self }
    }

    /// Sets the columns scrolled per tick, at least one.
    pub fn scroll_speed(self, speed: usize) -> (s: Self)
        ensures
            s == (MarqueeStyle { scroll_speed: if speed >= 1 { speed } else { 1 }, ..self }),
    {
        MarqueeStyle { scroll_speed: if speed >= 1 { speed } else { 1 }, ..self }
    }

    /// Sets the ticks waited at each edge.
    pub fn pause_at_edge(self, ticks: usize) -> (s: Self)
        ensures
            s == (MarqueeStyle { pause_at_edge: ticks, ..self }),
    {
        MarqueeStyle { pause_at_edge: ticks, ..self }
    }

    /// Sets the mode.
    pub fn mode(self, mode: MarqueeMode) -> (s: Self)
        ensures
            s == (MarqueeStyle { mode, ..self }),
    {
        MarqueeStyle { mode, ..self }
    }

    /// Sets the separator of continuous mode.
    pub fn separator(self, sep: &'static str) -> (s: Self)
        ensures
            s == (MarqueeStyle { separator: sep, ..self }),
    {
        MarqueeStyle { separator: sep, ..self }
    }

    /// Sets the ellipsis of static mode.
    pub fn ellipsis(self, ellipsis: &'static str) -> (s: Self)
        ensures
            s == (MarqueeStyle { ellipsis, ..self }),
    {
        MarqueeStyle { ellipsis, ..self }
    }

    /// For file paths: cyan, bouncing, pausing 5 ticks.
    pub fn file_path() -> (s: Self)
        ensures
            s.text_style == fg_style(Color::Cyan),
            s.mode == MarqueeMode::Bounce,
            s.pause_at_edge == 5,
            marquee_style_defaults(MarqueeStyle { pause_at_edge: 3, ..s }),
    {
        MarqueeStyle {
            text_style: fg(Color::Cyan),
            mode: MarqueeMode::Bounce,
            pause_at_edge: 5,
            ..Self::default()
        }
    }

    /// For status messages: bold yellow, looping.
    pub fn status() -> (s: Self)
        ensures
            s.text_style == with_modifier(fg_style(Color::Yellow), Modifier { bits: 1 }),
            s.mode == MarqueeMode::Continuous,
            marquee_style_defaults(s),
    {
        MarqueeStyle {
            text_style: fg(Color::Yellow).add_modifier(Modifier::bold()),
            mode: MarqueeMode::Continuous,
            scroll_speed: 1,
            ..Self::default()
        }
    }

    /// For titles: bold, bouncing, pausing 10 ticks.
    pub fn title() -> (s: Self)
        ensures
            s.text_style == with_modifier(plain_style(), Modifier { bits: 1 }),
            s.mode == MarqueeMode::Bounce,
            s.pause_at_edge == 10,
            marquee_style_defaults(MarqueeStyle { pause_at_edge: 3, ..s }),
    {
        MarqueeStyle {
            text_style: Style::new().add_modifier(Modifier::bold()),
            mode: MarqueeMode::Bounce,
            pause_at_edge: 10,
            ..Self::default()
        }
    }
}

/// `width - col` spaces, where positive.
pub open spec fn pad_to(col: int, width: int) -> Seq<char> {
    if col < width { spaces((width - col) as nat) } else { Seq::empty() }
}

/// The part of `s[j..]` shown in columns `col..width` after `skip` more
/// columns are skipped: a character cut by the start becomes a space, a
/// wide character cut by the end becomes a space, and the rest is padded
/// with spaces.
pub open spec fn vslice(s: Seq<char>, j: int, skip: nat, col: int, width: int) -> Seq<char>
    decreases s.len() - j,
{
    if j < 0 || j >= s.len() {
        pad_to(col, width)
    } else {
        let c = s[j];
        let w = cell_width(c);
        if skip > 0 {
            if w <= skip {
                vslice(s, j + 1, (skip - w) as nat, col, width)
            } else {
                seq![' '] + vslice(s, j + 1, 0, col + 1, width)
            }
        } else if col + w > width {
            if w > 1 && col + 1 <= width {
                seq![' '] + pad_to(col + 1, width)
            } else {
                pad_to(col, width)
            }
        } else {
            seq![c] + vslice(s, j + 1, 0, col + w, width)
        }
    }
}

/// One pass over the segment `s[j..]` of the looping text, with `skip`
/// columns still to skip and `built` of `vw` columns filled: the characters
/// added, and the skip and fill after it. Characters are added while they
/// fit; the pass ends at the first that does not.
pub open spec fn seg_from(s: Seq<char>, j: int, skip: nat, built: int, vw: int) -> (Seq<char>, nat, int)
    decreases s.len() - j,
{
    if j < 0 || j >= s.len() {
        (Seq::empty(), skip, built)
    } else {
        let c = s[j];
        let w = cell_width(c);
        if skip > 0 {
            if w <= skip {
                seg_from(s, j + 1, (skip - w) as nat, built, vw)
            } else {
                let t = seg_from(s, j + 1, 0, built + 1, vw);
                (seq![' '] + t.0, t.1, t.2)
            }
        } else if built + w > vw {
            (Seq::empty(), 0, built)
        } else {
            let t = seg_from(s, j + 1, 0, built + w, vw);
            (seq![c] + t.0, t.1, t.2)
        }
    }
}

/// A pass moved forward: more columns filled, or fewer left to skip.
pub open spec fn seg_progress(t: (Seq<char>, nat, int), skip: nat, built: int) -> bool {
    t.2 > built || (t.2 == built && t.1 < skip)
}

/// The looping text from a state on: passes over the text and the
/// separator in turn (over the text alone when `alt` is false), until
/// `vw` columns are filled. Two passes in a row that do not move forward
/// would repeat forever; `cont_ends` rules that out.
pub open spec fn cont_run(
    text: Seq<char>,
    sep: Seq<char>,
    alt: bool,
    skip: nat,
    built: int,
    vw: int,
    at_text: bool,
    stalled: bool,
) -> Seq<char>
    decreases vw - built, skip, (if stalled { 0int } else { 1int }),
{
    if built >= vw {
        Seq::empty()
    } else {
        let t = seg_from(if at_text { text } else { sep }, 0, skip, built, vw);
        let next = if alt { !at_text } else { true };
        if t.2 > vw {
            t.0
        } else if seg_progress(t, skip, built) {
            t.0 + cont_run(text, sep, alt, t.1, t.2, vw, next, false)
        } else if t.2 == built && t.1 == skip && !stalled {
            t.0 + cont_run(text, sep, alt, t.1, t.2, vw, next, true)
        } else {
            t.0
        }
    }
}

/// The looping text from a state on fills its columns: no two passes in a
/// row leave the state as it was.
pub open spec fn cont_ends(
    text: Seq<char>,
    sep: Seq<char>,
    alt: bool,
    skip: nat,
    built: int,
    vw: int,
    at_text: bool,
    stalled: bool,
) -> bool
    decreases vw - built, skip, (if stalled { 0int } else { 1int }),
{
    if built >= vw {
        true
    } else {
        let t = seg_from(if at_text { text } else { sep }, 0, skip, built, vw);
        let next = if alt { !at_text } else { true };
        if t.2 > vw {
            false
        } else if seg_progress(t, skip, built) {
            cont_ends(text, sep, alt, t.1, t.2, vw, next, false)
        } else if t.2 == built && t.1 == skip && !stalled {
            cont_ends(text, sep, alt, t.1, t.2, vw, next, true)
        } else {
            false
        }
    }
}

/// A pass never empties columns nor adds to the skip, and never overfills.
proof fn lemma_seg_bounds(s: Seq<char>, j: int, skip: nat, built: int, vw: int)
    requires
        0 <= j,
        built <= vw,
        skip > 0 ==> built < vw,
    ensures
        ({
            let t = seg_from(s, j, skip, built, vw);
            &&& built <= t.2 <= vw
            &&& t.1 <= skip
        }),
    decreases s.len() - j,
{
    if j < s.len() {
        let w = cell_width(s[j]);
        if skip > 0 {
            if w <= skip {
                lemma_seg_bounds(s, j + 1, (skip - w) as nat, built, vw);
            } else {
                lemma_seg_bounds(s, j + 1, 0, built + 1, vw);
            }
        } else if built + w <= vw {
            lemma_seg_bounds(s, j + 1, 0, built + w, vw);
        }
    }
}

/// Runs one pass of `seg_from`, appending what it adds to `out`; returns
/// the skip and fill after it.
fn run_segment(s: &[char], skip: usize, built: usize, vw: usize, out: &mut Vec<char>) -> (res: (usize, usize))
    requires
        built <= vw,
        vw + 4 <= usize::MAX,
        skip > 0 ==> built < vw,
    ensures
        ({
            let t = seg_from(s@, 0, skip as nat, built as int, vw as int);
            &&& final(out)@ == old(out)@ + t.0
            &&& res.0 == t.1
            &&& res.1 == t.2
        }),
{
    let ghost total = seg_from(s@, 0, skip as nat, built as int, vw as int);
    let ghost start = old(out)@;
    let mut k = skip;
    let mut b = built;
    let mut j: usize = 0;
    while j < s.len()
        invariant_except_break
            j <= s@.len(),
            b <= vw,
            vw + 4 <= usize::MAX,
            k > 0 ==> b < vw,
            ({
                let t = seg_from(s@, j as int, k as nat, b as int, vw as int);
                &&& out@ + t.0 == start + total.0
                &&& t.1 == total.1
                &&& t.2 == total.2
            }),
        ensures
            out@ == start + total.0,
            k == total.1,
            b == total.2,
        decreases s@.len() - j,
    {
        let c = s[j];
        let w = cell_width_of(c);
        if k > 0 {
            if w <= k {
                k = k - w;
            } else {
                let ghost before = out@;
                out.push(' ');
                proof {
                    let t = seg_from(s@, j + 1, 0, b + 1, vw as int);
                    assert(out@ + t.0 =~= before + (seq![' '] + t.0));
                }
                b = b + 1;
                k = 0;
            }
        } else if b + w > vw {
            break;
        } else {
            let ghost before = out@;
            out.push(c);
            proof {
                let t = seg_from(s@, j + 1, 0, b + w, vw as int);
                assert(out@ + t.0 =~= before + (seq![c] + t.0));
            }
            b = b + w;
        }
        j = j + 1;
    }
    proof {
        if j >= s@.len() {
            assert(out@ + Seq::<char>::empty() =~= out@);
        }
    }
    (k, b)
}

/// Fills `vw` columns with the looping text, skipping `skip0` columns.
fn continuous_line(text: &[char], sep: &[char], alt: bool, skip0: usize, vw: usize) -> (r: Vec<char>)
    requires
        vw + 4 <= usize::MAX,
        cont_ends(text@, sep@, alt, skip0 as nat, 0, vw as int, true, false),
    ensures
        r@ == cont_run(text@, sep@, alt, skip0 as nat, 0, vw as int, true, false),
{
    let ghost total = cont_run(text@, sep@, alt, skip0 as nat, 0, vw as int, true, false);
    let mut out: Vec<char> = Vec::new();
    let mut skip = skip0;
    let mut built: usize = 0;
    let mut at_text = true;
    let ghost mut stalled = false;
    while built < vw
        invariant
            built <= vw,
            vw + 4 <= usize::MAX,
            cont_ends(text@, sep@, alt, skip as nat, built as int, vw as int, at_text, stalled),
            out@ + cont_run(text@, sep@, alt, skip as nat, built as int, vw as int, at_text, stalled) == total,
        decreases vw - built, skip, (if stalled { 0int } else { 1int }),
    {
        let ghost t = seg_from(if at_text { text@ } else { sep@ }, 0, skip as nat, built as int, vw as int);
        proof {
            lemma_seg_bounds(if at_text { text@ } else { sep@ }, 0, skip as nat, built as int, vw as int);
        }
        let ghost before = out@;
        let (k, b) = if at_text {
            run_segment(text, skip, built, vw, &mut out)
        } else {
            run_segment(sep, skip, built, vw, &mut out)
        };
        let next = if alt { !at_text } else { true };
        proof {
            if seg_progress(t, skip as nat, built as int) {
                stalled = false;
            } else {
                stalled = true;
            }
            assert(before + (t.0 + cont_run(text@, sep@, alt, k as nat, b as int, vw as int, next, stalled))
                =~= out@ + cont_run(text@, sep@, alt, k as nat, b as int, vw as int, next, stalled));
        }
        skip = k;
        built = b;
        at_text = next;
    }
    assert(out@ + Seq::<char>::empty() =~= out@);
    out
}

/// Fills `vw` columns with the looping text as `continuous_line` does, or
/// gives `None` where the looping text cannot fill them (two passes in a row
/// that do not move forward).
fn try_continuous_line(text: &[char], sep: &[char], alt: bool, skip0: usize, vw: usize) -> (r: Option<Vec<char>>)
    requires
        vw + 4 <= usize::MAX,
    ensures
        r is Some <==> cont_ends(text@, sep@, alt, skip0 as nat, 0, vw as int, true, false),
        r matches Some(v) ==> v@ == cont_run(text@, sep@, alt, skip0 as nat, 0, vw as int, true, false),
{
    let ghost ends = cont_ends(text@, sep@, alt, skip0 as nat, 0, vw as int, true, false);
    let ghost total = cont_run(text@, sep@, alt, skip0 as nat, 0, vw as int, true, false);
    let mut out: Vec<char> = Vec::new();
    let mut skip = skip0;
    let mut built: usize = 0;
    let mut at_text = true;
    let mut stalled = false;
    while built < vw
        invariant
            built <= vw,
            vw + 4 <= usize::MAX,
            ends == cont_ends(text@, sep@, alt, skip0 as nat, 0, vw as int, true, false),
            cont_ends(text@, sep@, alt, skip as nat, built as int, vw as int, at_text, stalled) == ends,
            out@ + cont_run(text@, sep@, alt, skip as nat, built as int, vw as int, at_text, stalled) == total,
        decreases vw - built, skip, (if stalled { 0int } else { 1int }),
    {
        let ghost t = seg_from(if at_text { text@ } else { sep@ }, 0, skip as nat, built as int, vw as int);
        proof {
            lemma_seg_bounds(if at_text { text@ } else { sep@ }, 0, skip as nat, built as int, vw as int);
        }
        let ghost before = out@;
        let (k, b) = if at_text {
            run_segment(text, skip, built, vw, &mut out)
        } else {
            run_segment(sep, skip, built, vw, &mut out)
        };
        let next = if alt { !at_text } else { true };
        let progress = b > built || (b == built && k < skip);
        if !progress && stalled {
            assert(!cont_ends(text@, sep@, alt, skip as nat, built as int, vw as int, at_text, stalled));
            return None;
        }
        assert(!progress ==> b == built && k == skip);
        let now_stalled = !progress;
        proof {
            assert(before + (t.0 + cont_run(text@, sep@, alt, k as nat, b as int, vw as int, next, now_stalled))
                =~= out@ + cont_run(text@, sep@, alt, k as nat, b as int, vw as int, next, now_stalled));
        }
        skip = k;
        built = b;
        at_text = next;
        stalled = now_stalled;
    }
    assert(out@ + Seq::<char>::empty() =~= out@);
    Some(out)
}

/// The marquee widget: a text, a style and the animation state.
pub struct MarqueeText<'a> {
    pub text: &'a str,
    pub style: MarqueeStyle,
    pub state: &'a MarqueeState,
}

/// The line a marquee shows in a viewport `vw` columns wide. A text that
/// fits is padded. Otherwise: static mode cuts it (trailing spaces of the
/// cut removed) and adds the ellipsis, or only cuts it where the ellipsis
/// does not fit; bounce mode shows it from the offset; continuous mode
/// shows the text and separator looping, from the offset modulo their
/// width.
pub open spec fn line_spec(text: Seq<char>, st: MarqueeStyle, offset: usize, vw: usize) -> Seq<char> {
    let tw = str_width_of(text);
    if tw <= vw {
        pad_right(text, vw as int)
    } else {
        match st.mode {
            MarqueeMode::Static => {
                let ew = str_width_of(st.ellipsis@);
                if vw <= ew {
                    vslice(text, 0, 0, 0, vw as int)
                } else {
                    pad_right(trim_end_spec(vslice(text, 0, 0, 0, vw - ew)) + st.ellipsis@, vw as int)
                }
            },
            MarqueeMode::Bounce => vslice(text, 0, offset as nat, 0, vw as int),
            MarqueeMode::Continuous => {
                let sw = str_width_of(st.separator@);
                cont_run(text, st.separator@, sw > 0, (offset % ((tw + sw) as usize)) as nat, 0, vw as int, true, false)
            },
        }
    }
}

/// The looping text shown in a viewport `vw` columns wide fills it, and
/// the cycle width fits in `usize`.
pub open spec fn line_ok(text: Seq<char>, st: MarqueeStyle, offset: usize, vw: usize) -> bool {
    let tw = str_width_of(text);
    let sw = str_width_of(st.separator@);
    (tw > vw && st.mode == MarqueeMode::Continuous) ==> {
        &&& tw + sw <= usize::MAX
        &&& cont_ends(text, st.separator@, sw > 0, (offset % ((tw + sw) as usize)) as nat, 0, vw as int, true, false)
    }
}

impl<'a> MarqueeText<'a> {
    /// A marquee over `text` with the default style.
    pub fn new(text: &'a str, state: &'a MarqueeState) -> (m: Self)
        ensures
            m.text == text,
            m.state == state,
            marquee_style_defaults(m.style),
            m.style.text_style == plain_style(),
            m.style.mode == MarqueeMode::Continuous,
    {
        MarqueeText { text, style: MarqueeStyle::default(), state }
    }

    /// Sets the style.
    pub fn style(self, style: MarqueeStyle) -> (m: Self)
        ensures
            m == (MarqueeText { style, ..self }),
    {
        MarqueeText { style, ..self }
    }

    /// Sets the text style.
    pub fn text_style(self, style: Style) -> (m: Self)
        ensures
            m == (MarqueeText { style: MarqueeStyle { text_style: style, ..self.style }, ..self }),
    {
        MarqueeText { style: MarqueeStyle { text_style: style, ..self.style }, ..self }
    }

    /// Sets the mode.
    pub fn mode(self, mode: MarqueeMode) -> (m: Self)
        ensures
            m == (MarqueeText { style: MarqueeStyle { mode, ..self.style }, ..self }),
    {
        MarqueeText { style: MarqueeStyle { mode, ..self.style }, ..self }
    }

    /// The part of `text` that fits in `width` columns, starting `offset`
    /// columns in (see `vslice`).
    pub fn extract_visible_slice(text: &str, offset: usize, width: usize) -> (r: String)
        requires
            width + 4 <= usize::MAX,
        ensures
            r@ == vslice(text@, 0, offset as nat, 0, width as int),
    {
        let s = chars_of(text);
        let mut out: Vec<char> = Vec::new();
        let mut skip = offset;
        let mut col: usize = 0;
        let mut j: usize = 0;
        let ghost total = vslice(text@, 0, offset as nat, 0, width as int);
        while j < s.len()
            invariant_except_break
                s@ == text@,
                j <= s@.len(),
                width + 4 <= usize::MAX,
                col <= width + 1,
                skip > 0 ==> col == 0,
                out@ + vslice(s@, j as int, skip as nat, col as int, width as int) == total,
            ensures
                s@ == text@,
                col <= width + 1,
                out@ + pad_to(col as int, width as int) == total,
            decreases s@.len() - j,
        {
            let c = s[j];
            let w = cell_width_of(c);
            if skip > 0 {
                if w <= skip {
                    skip = skip - w;
                } else {
                    proof {
                        let t = vslice(s@, j + 1, 0, col + 1, width as int);
                        assert(out@ + (seq![' '] + t) =~= out@.push(' ') + t);
                    }
                    out.push(' ');
                    col = col + 1;
                    skip = 0;
                }
            } else if col + w > width {
                if w > 1 && col + 1 <= width {
                    proof {
                        assert(out@ + (seq![' '] + pad_to(col + 1, width as int)) =~= out@.push(' ') + pad_to(col + 1, width as int));
                    }
                    out.push(' ');
                    col = col + 1;
                }
                break;
            } else {
                proof {
                    let t = vslice(s@, j + 1, 0, col + w, width as int);
                    assert(out@ + (seq![c] + t) =~= out@.push(c) + t);
                }
                out.push(c);
                col = col + w;
            }
            j = j + 1;
        }
        while col < width
            invariant
                col <= width + 1,
                out@ + pad_to(col as int, width as int) == total,
            decreases width - col,
        {
            proof {
                assert(pad_to(col as int, width as int) =~= seq![' '] + pad_to(col + 1, width as int));
                assert(out@ + pad_to(col as int, width as int) =~= out@.push(' ') + pad_to(col + 1, width as int));
            }
            out.push(' ');
            col = col + 1;
        }
        assert(out@ + pad_to(col as int, width as int) =~= out@);
        string_from_chars(&out)
    }

    /// The line shown in a viewport `width` columns wide (see `line_spec`).
    pub fn line(&self, width: u16) -> (r: String)
        requires
            line_ok(self.text@, self.style, self.state.offset, width as usize),
        ensures
            r@ == line_spec(self.text@, self.style, self.state.offset, width as usize),
    {
        let vw = width as usize;
        let tw = str_width(self.text);
        if tw <= vw {
            return pad_right_str(self.text, vw);
        }
        match self.style.mode {
            MarqueeMode::Static => {
                let ew = str_width(self.style.ellipsis);
                if vw <= ew {
                    Self::extract_visible_slice(self.text, 0, vw)
                } else {
                    let visible = Self::extract_visible_slice(self.text, 0, vw - ew);
                    let trimmed = trim_end(visible.as_str());
                    let display = concat(trimmed.as_str(), self.style.ellipsis);
                    pad_right_str(display.as_str(), vw)
                }
            },
            MarqueeMode::Bounce => Self::extract_visible_slice(self.text, self.state.offset, vw),
            MarqueeMode::Continuous => {
                let sw = str_width(self.style.separator);
                let cycle = tw + sw;
                let text = chars_of(self.text);
                let sep = chars_of(self.style.separator);
                let v = continuous_line(&text, &sep, sw > 0, self.state.offset % cycle, vw);
                string_from_chars(&v)
            },
        }
    }
}

impl<'a> MarqueeText<'a> {
    /// The line shown in a viewport `width` columns wide (see `line_spec`),
    /// or `None` where `line` cannot draw it: a looping text whose text and
    /// separator widths overflow, or that cannot fill the viewport.
    pub fn try_line(&self, width: u16) -> (r: Option<String>)
        ensures
            r is Some <==> line_ok(self.text@, self.style, self.state.offset, width as usize),
            r matches Some(s) ==> s@ == line_spec(self.text@, self.style, self.state.offset, width as usize),
    {
        let vw = width as usize;
        let tw = str_width(self.text);
        if tw <= vw || self.style.mode != MarqueeMode::Continuous {
            return Some(self.line(width));
        }
        let sw = str_width(self.style.separator);
        if tw > usize::MAX - sw {
            return None;
        }
        let cycle = tw + sw;
        let text = chars_of(self.text);
        let sep = chars_of(self.style.separator);
        match try_continuous_line(&text, &sep, sw > 0, self.state.offset % cycle, vw) {
            Some(v) => Some(string_from_chars(&v)),
            None => None,
        }
    }
}

/// A marquee that loops its text.
pub fn continuous_marquee<'a>(text: &'a str, state: &'a MarqueeState) -> (m: MarqueeText<'a>)
    ensures
        m.text == text,
        m.state == state,
        marquee_style_defaults(m.style),
        m.style.text_style == plain_style(),
        m.style.mode == MarqueeMode::Continuous,
{
    MarqueeText::new(text, state).mode(MarqueeMode::Continuous)
}

/// A marquee that bounces its text.
pub fn bounce_marquee<'a>(text: &'a str, state: &'a MarqueeState) -> (m: MarqueeText<'a>)
    ensures
        m.text == text,
        m.state == state,
        marquee_style_defaults(m.style),
        m.style.text_style == plain_style(),
        m.style.mode == MarqueeMode::Bounce,
{
    MarqueeText::new(text, state).mode(MarqueeMode::Bounce)
}

/// A bouncing marquee turns at its edges and never stalls: after a tick
/// that is not a pause, an offset at the start edge moves left (into the
/// text) and one at the far edge moves right; and with a positive speed
/// every such tick changes the offset or the direction.
pub proof fn bounce_turns_at_edges(s: MarqueeState, tw: usize, vw: usize, st: MarqueeStyle)
    requires
        st.mode == MarqueeMode::Bounce,
        tw > vw,
        s.paused_ticks == 0,
        s.offset <= tw - vw,
    ensures
        tick_spec(s, tw, vw, st).offset == 0 ==> tick_spec(s, tw, vw, st).direction == ScrollDir::Left,
        tick_spec(s, tw, vw, st).offset == tw - vw ==> tick_spec(s, tw, vw, st).direction == ScrollDir::Right,
        st.scroll_speed > 0 ==> (tick_spec(s, tw, vw, st).offset != s.offset
            || tick_spec(s, tw, vw, st).direction != s.direction),
{
}

/// A bouncing marquee stays between its edges: from an offset within
/// `0..=tw - vw`, a tick keeps it there.
pub proof fn bounce_stays_in_range(s: MarqueeState, tw: usize, vw: usize, st: MarqueeStyle)
    requires
        st.mode == MarqueeMode::Bounce,
        tw > vw,
        s.offset <= tw - vw,
    ensures
        tick_spec(s, tw, vw, st).offset <= tw - vw,
{
}

/// A continuous marquee's offset stays below the width of text and
/// separator.
pub proof fn continuous_stays_in_range(s: MarqueeState, tw: usize, vw: usize, st: MarqueeStyle)
    requires
        st.mode == MarqueeMode::Continuous,
        tw > vw,
        s.offset < tw + str_width_of(st.separator@),
    ensures
        tick_spec(s, tw, vw, st).offset < tw + str_width_of(st.separator@),
{
    let m = tw + str_width_of(st.separator@);
    assert((s.offset + st.scroll_speed) % m < m) by (nonlinear_arith)
        requires m > 0;
}

} // verus!
