//! Input: a single-line text field with a cursor, word movement and
//! deletion, and the line that shows it.
use vstd::prelude::*;
use vstd::string::*;
use crate::click::ClickRegion;
use crate::focus::FocusId;
use crate::geometry::{block_inner, bordered_inner, Rect};
use crate::style::{fg, fg_style, spans_match, Color, Style};
use crate::text::{chars_of, concat, is_whitespace, is_whitespace_spec, string_from_chars, string_from_str};

verus! {

/// What an input interaction asks for.
#[derive(Debug, Clone, Copy, PartialEq, Eq, Structural)]
pub enum InputAction {
    /// Focus the input.
    Focus,
}

/// State of a text field. The cursor counts characters; it may be set past
/// the end, where it acts as the end for editing.
#[derive(Debug, Clone)]
pub struct InputState {
    pub text: String,
    /// Cursor position, in characters.
    pub cursor_pos: usize,
    pub focused: bool,
    pub enabled: bool,
    /// Horizontal scroll offset, in characters.
    pub scroll_offset: usize,
}

/// The cursor as an editing position: at most the end of the text.
pub open spec fn edit_pos(t: Seq<char>, c: usize) -> int {
    if c <= t.len() { c as int } else { t.len() as int }
}

/// The position before the whitespace that ends at `c`.
pub open spec fn ws_back(t: Seq<char>, c: int) -> int
    decreases c,
{
    if 0 < c <= t.len() && is_whitespace_spec(t[c - 1]) { ws_back(t, c - 1) } else { c }
}

/// The position before the word (non-whitespace run) that ends at `c`.
pub open spec fn word_back(t: Seq<char>, c: int) -> int
    decreases c,
{
    if 0 < c <= t.len() && !is_whitespace_spec(t[c - 1]) { word_back(t, c - 1) } else { c }
}

/// The position after the word that starts at `c`.
pub open spec fn word_fwd(t: Seq<char>, c: int) -> int
    decreases t.len() - c,
{
    if 0 <= c < t.len() && !is_whitespace_spec(t[c]) { word_fwd(t, c + 1) } else { c }
}

/// The position after the whitespace that starts at `c`.
pub open spec fn ws_fwd(t: Seq<char>, c: int) -> int
    decreases t.len() - c,
{
    if 0 <= c < t.len() && is_whitespace_spec(t[c]) { ws_fwd(t, c + 1) } else { c }
}

proof fn lemma_back_bounds(t: Seq<char>, c: int)
    requires
        0 <= c,
    ensures
        0 <= ws_back(t, c) <= c,
        0 <= word_back(t, c) <= c,
    decreases c,
{
    if c > 0 {
        lemma_back_bounds(t, c - 1);
    }
}

proof fn lemma_fwd_bounds(t: Seq<char>, c: int)
    requires
        0 <= c <= t.len(),
    ensures
        c <= ws_fwd(t, c) <= t.len(),
        c <= word_fwd(t, c) <= t.len(),
    decreases t.len() - c,
{
    if c < t.len() {
        lemma_fwd_bounds(t, c + 1);
    }
}

/// Moves back over whitespace then a word from `c`.
fn back_over(t: &[char], c: usize, word: bool) -> (r: usize)
    ensures
        r == if word { word_back(t@, c as int) } else { ws_back(t@, c as int) },
        r <= c,
{
    let mut p = c;
    while p > 0 && p <= t.len() && is_whitespace(t[p - 1]) != word
        invariant
            p <= c,
            (if word { word_back(t@, p as int) } else { ws_back(t@, p as int) })
                == (if word { word_back(t@, c as int) } else { ws_back(t@, c as int) }),
        decreases p,
    {
        p = p - 1;
    }
    p
}

/// Moves forward over a word (`word`) or whitespace from `c`.
fn fwd_over(t: &[char], c: usize, word: bool) -> (r: usize)
    requires
        c <= t@.len(),
    ensures
        r == if word { word_fwd(t@, c as int) } else { ws_fwd(t@, c as int) },
        c <= r <= t@.len(),
{
    let mut p = c;
    while p < t.len() && is_whitespace(t[p]) != word
        invariant
            c <= p <= t@.len(),
            (if word { word_fwd(t@, p as int) } else { ws_fwd(t@, p as int) })
                == (if word { word_fwd(t@, c as int) } else { ws_fwd(t@, c as int) }),
        decreases t@.len() - p,
    {
        p = p + 1;
    }
    p
}

/// `t` with the characters from `a` to `b` removed.
fn cut_chars(t: &Vec<char>, a: usize, b: usize) -> (r: String)
    requires
        a <= b <= t@.len(),
    ensures
        r@ == t@.subrange(0, a as int) + t@.subrange(b as int, t@.len() as int),
{
    let mut v: Vec<char> = Vec::new();
    let mut i: usize = 0;
    while i < a
        invariant
            i <= a <= b <= t@.len(),
            v@ == t@.subrange(0, i as int),
        decreases a - i,
    {
        v.push(t[i]);
        assert(v@ =~= t@.subrange(0, i + 1));
        i = i + 1;
    }
    let mut j: usize = b;
    while j < t.len()
        invariant
            a <= b <= j <= t@.len(),
            v@ == t@.subrange(0, a as int) + t@.subrange(b as int, j as int),
        decreases t@.len() - j,
    {
        v.push(t[j]);
        assert(v@ =~= t@.subrange(0, a as int) + t@.subrange(b as int, j + 1));
        j = j + 1;
    }
    string_from_chars(&v)
}

/// `t` with `s` put in at position `k`.
fn splice_chars(t: &Vec<char>, k: usize, s: &[char]) -> (r: String)
    requires
        k <= t@.len(),
    ensures
        r@ == t@.subrange(0, k as int) + s@ + t@.subrange(k as int, t@.len() as int),
{
    let mut v: Vec<char> = Vec::new();
    let mut i: usize = 0;
    while i < k
        invariant
            i <= k <= t@.len(),
            v@ == t@.subrange(0, i as int),
        decreases k - i,
    {
        v.push(t[i]);
        assert(v@ =~= t@.subrange(0, i + 1));
        i = i + 1;
    }
    let mut j: usize = 0;
    while j < s.len()
        invariant
            j <= s@.len(),
            v@ == t@.subrange(0, k as int) + s@.subrange(0, j as int),
        decreases s@.len() - j,
    {
        v.push(s[j]);
        assert(v@ =~= t@.subrange(0, k as int) + s@.subrange(0, j + 1));
        j = j + 1;
    }
    assert(s@.subrange(0, s@.len() as int) =~= s@);
    let mut m: usize = k;
    while m < t.len()
        invariant
            k <= m <= t@.len(),
            v@ == t@.subrange(0, k as int) + s@ + t@.subrange(k as int, m as int),
        decreases t@.len() - m,
    {
        v.push(t[m]);
        assert(v@ =~= t@.subrange(0, k as int) + s@ + t@.subrange(k as int, m + 1));
        m = m + 1;
    }
    string_from_chars(&v)
}

impl InputState {
    /// An unfocused, enabled field holding `text`, the cursor at its end.
    pub fn new(text: &str) -> (s: Self)
        ensures
            s.text@ == text@,
            s.cursor_pos == text@.len(),
            !s.focused,
            s.enabled,
            s.scroll_offset == 0,
    {
        InputState {
            text: string_from_str(text),
            cursor_pos: text.unicode_len(),
            focused: false,
            enabled: true,
            scroll_offset: 0,
        }
    }

    /// An empty field.
    pub fn empty() -> (s: Self)
        ensures
            s.text@.len() == 0,
            s.cursor_pos == 0,
            !s.focused,
            s.enabled,
            s.scroll_offset == 0,
    {
        InputState { text: String::new(), cursor_pos: 0, focused: false, enabled: true, scroll_offset: 0 }
    }

    /// Inserts `c` at the cursor and moves the cursor past it. Nothing
    /// happens while disabled.
    pub fn insert_char(&mut self, c: char)
        requires
            old(self).enabled ==> old(self).cursor_pos < usize::MAX,
        ensures
            old(self).enabled ==> {
                let t = old(self).text@;
                let k = edit_pos(t, old(self).cursor_pos);
                &&& final(self).text@ == t.subrange(0, k) + seq![c] + t.subrange(k, t.len() as int)
                &&& final(self).cursor_pos == old(self).cursor_pos + 1
            },
            !old(self).enabled ==> final(self).text == old(self).text && final(self).cursor_pos == old(self).cursor_pos,
            final(self).focused == old(self).focused,
            final(self).enabled == old(self).enabled,
            final(self).scroll_offset == old(self).scroll_offset,
    {
        if !self.enabled {
            return;
        }
        let t = chars_of(self.text.as_str());
        let k = if self.cursor_pos <= t.len() { self.cursor_pos } else { t.len() };
        let mut one: Vec<char> = Vec::new();
        one.push(c);
        self.text = splice_chars(&t, k, &one);
        self.cursor_pos = self.cursor_pos + 1;
    }

    /// Inserts `s` at the cursor and moves the cursor past it. Nothing
    /// happens while disabled.
    pub fn insert_str(&mut self, s: &str)
        requires
            old(self).enabled ==> old(self).cursor_pos + s@.len() <= usize::MAX,
        ensures
            old(self).enabled ==> {
                let t = old(self).text@;
                let k = edit_pos(t, old(self).cursor_pos);
                &&& final(self).text@ == t.subrange(0, k) + s@ + t.subrange(k, t.len() as int)
                &&& final(self).cursor_pos == old(self).cursor_pos + s@.len()
            },
            !old(self).enabled ==> final(self).text == old(self).text && final(self).cursor_pos == old(self).cursor_pos,
            final(self).focused == old(self).focused,
            final(self).enabled == old(self).enabled,
            final(self).scroll_offset == old(self).scroll_offset,
    {
        if !self.enabled {
            return;
        }
        let t = chars_of(self.text.as_str());
        let k = if self.cursor_pos <= t.len() { self.cursor_pos } else { t.len() };
        let sv = chars_of(s);
        self.text = splice_chars(&t, k, &sv);
        self.cursor_pos = self.cursor_pos + sv.len();
    }

    /// Backspace: moves the cursor back one character and deletes the
    /// character there, if any. Returns whether a character was deleted;
    /// nothing happens while disabled or at the start.
    pub fn delete_char_backward(&mut self) -> (deleted: bool)
        ensures
            ({
                let t = old(self).text@;
                let c = old(self).cursor_pos;
                if !old(self).enabled || c == 0 {
                    !deleted && final(self).text == old(self).text && final(self).cursor_pos == c
                } else {
                    &&& final(self).cursor_pos == c - 1
                    &&& deleted == (c - 1 < t.len())
                    &&& deleted ==> final(self).text@ == t.remove(c - 1)
                    &&& !deleted ==> final(self).text == old(self).text
                }
            }),
            final(self).focused == old(self).focused,
            final(self).enabled == old(self).enabled,
            final(self).scroll_offset == old(self).scroll_offset,
    {
        if !self.enabled || self.cursor_pos == 0 {
            return false;
        }
        self.cursor_pos = self.cursor_pos - 1;
        let t = chars_of(self.text.as_str());
        if self.cursor_pos < t.len() {
            self.text = cut_chars(&t, self.cursor_pos, self.cursor_pos + 1);
            assert(self.text@ =~= t@.remove(self.cursor_pos as int));
            return true;
        }
        false
    }

    /// Delete: deletes the character at the cursor, if any. Returns whether
    /// a character was deleted; nothing happens while disabled.
    pub fn delete_char_forward(&mut self) -> (deleted: bool)
        ensures
            deleted == (old(self).enabled && old(self).cursor_pos < old(self).text@.len()),
            deleted ==> final(self).text@ == old(self).text@.remove(old(self).cursor_pos as int),
            !deleted ==> final(self).text == old(self).text,
            final(self).cursor_pos == old(self).cursor_pos,
            final(self).focused == old(self).focused,
            final(self).enabled == old(self).enabled,
            final(self).scroll_offset == old(self).scroll_offset,
    {
        if !self.enabled {
            return false;
        }
        let t = chars_of(self.text.as_str());
        if self.cursor_pos < t.len() {
            self.text = cut_chars(&t, self.cursor_pos, self.cursor_pos + 1);
            assert(self.text@ =~= t@.remove(self.cursor_pos as int));
            return true;
        }
        false
    }

    /// Deletes the word before the cursor: the cursor first moves back over
    /// whitespace (kept), then the word before it is deleted. Returns
    /// whether any characters were deleted; nothing is deleted while
    /// disabled, at the start, or with the cursor past the end.
    pub fn delete_word_backward(&mut self) -> (changed: bool)
        ensures
            ({
                let t = old(self).text@;
                let c = old(self).cursor_pos;
                let p1 = ws_back(t, c as int);
                let p2 = word_back(t, p1);
                if !old(self).enabled || c == 0 || c > t.len() {
                    !changed && final(self).text == old(self).text && final(self).cursor_pos == c
                } else {
                    &&& final(self).cursor_pos == p2
                    &&& final(self).text@ == t.subrange(0, p2) + t.subrange(p1, t.len() as int)
                    &&& changed == (p2 != p1)
                }
            }),
            changed == (final(self).text@.len() < old(self).text@.len()),
            final(self).focused == old(self).focused,
            final(self).enabled == old(self).enabled,
            final(self).scroll_offset == old(self).scroll_offset,
    {
        if !self.enabled || self.cursor_pos == 0 {
            return false;
        }
        let start = self.cursor_pos;
        let t = chars_of(self.text.as_str());
        proof {
            lemma_back_bounds(t@, start as int);
            lemma_back_bounds(t@, ws_back(t@, start as int));
        }
        let p1 = back_over(&t, start, false);
        let p2 = back_over(&t, p1, true);
        if p1 <= t.len() {
            self.text = cut_chars(&t, p2, p1);
        }
        self.cursor_pos = p2;
        p2 != p1
    }

    /// Moves the cursor back one character, stopping at the start.
    pub fn move_left(&mut self)
        ensures
            final(self).cursor_pos == if old(self).cursor_pos > 0 { (old(self).cursor_pos - 1) as usize } else { 0 },
            final(self).text == old(self).text,
            final(self).focused == old(self).focused,
            final(self).enabled == old(self).enabled,
            final(self).scroll_offset == old(self).scroll_offset,
    {
        if self.cursor_pos > 0 {
            self.cursor_pos -= 1;
        }
    }

    /// Moves the cursor forward one character, stopping at the end.
    pub fn move_right(&mut self)
        ensures
            final(self).cursor_pos == if old(self).cursor_pos < old(self).text@.len() {
                (old(self).cursor_pos + 1) as usize
            } else {
                old(self).cursor_pos
            },
            final(self).text == old(self).text,
            final(self).focused == old(self).focused,
            final(self).enabled == old(self).enabled,
            final(self).scroll_offset == old(self).scroll_offset,
    {
        let max = self.text.as_str().unicode_len();
        if self.cursor_pos < max {
            self.cursor_pos += 1;
        }
    }

    /// Moves the cursor to the start.
    pub fn move_home(&mut self)
        ensures
            final(self).cursor_pos == 0,
            final(self).text == old(self).text,
            final(self).focused == old(self).focused,
            final(self).enabled == old(self).enabled,
            final(self).scroll_offset == old(self).scroll_offset,
    {
        self.cursor_pos = 0;
    }

    /// Moves the cursor to the end.
    pub fn move_end(&mut self)
        ensures
            final(self).cursor_pos == old(self).text@.len(),
            final(self).text == old(self).text,
            final(self).focused == old(self).focused,
            final(self).enabled == old(self).enabled,
            final(self).scroll_offset == old(self).scroll_offset,
    {
        self.cursor_pos = self.text.as_str().unicode_len();
    }

    /// Moves the cursor back over whitespace, then to the start of the word
    /// before it.
    pub fn move_word_left(&mut self)
        ensures
            final(self).cursor_pos == if old(self).cursor_pos == 0 {
                0
            } else {
                word_back(old(self).text@, ws_back(old(self).text@, old(self).cursor_pos as int))
            },
            final(self).text == old(self).text,
            final(self).focused == old(self).focused,
            final(self).enabled == old(self).enabled,
            final(self).scroll_offset == old(self).scroll_offset,
    {
        if self.cursor_pos == 0 {
            return;
        }
        let t = chars_of(self.text.as_str());
        let p1 = back_over(&t, self.cursor_pos, false);
        self.cursor_pos = back_over(&t, p1, true);
    }

    /// Moves the cursor past the word at it, then past the whitespace that
    /// follows.
    pub fn move_word_right(&mut self)
        ensures
            final(self).cursor_pos == if old(self).cursor_pos >= old(self).text@.len() {
                old(self).cursor_pos as int
            } else {
                ws_fwd(old(self).text@, word_fwd(old(self).text@, old(self).cursor_pos as int))
            },
            final(self).text == old(self).text,
            final(self).focused == old(self).focused,
            final(self).enabled == old(self).enabled,
            final(self).scroll_offset == old(self).scroll_offset,
    {
        let t = chars_of(self.text.as_str());
        if self.cursor_pos >= t.len() {
            return;
        }
        let p1 = fwd_over(&t, self.cursor_pos, true);
        self.cursor_pos = fwd_over(&t, p1, false);
    }

    /// Empties the field; cursor and scroll back to the start.
    pub fn clear(&mut self)
        ensures
            final(self).text@.len() == 0,
            final(self).cursor_pos == 0,
            final(self).scroll_offset == 0,
            final(self).focused == old(self).focused,
            final(self).enabled == old(self).enabled,
    {
        self.text = String::new();
        self.cursor_pos = 0;
        self.scroll_offset = 0;
    }

    /// Replaces the text; the cursor goes to its end, the scroll back to the
    /// start.
    pub fn set_text(&mut self, text: &str)
        ensures
            final(self).text@ == text@,
            final(self).cursor_pos == text@.len(),
            final(self).scroll_offset == 0,
            final(self).focused == old(self).focused,
            final(self).enabled == old(self).enabled,
    {
        self.text = string_from_str(text);
        self.cursor_pos = text.unicode_len();
        self.scroll_offset = 0;
    }

    /// The text before the cursor.
    pub fn text_before_cursor(&self) -> (r: &str)
        ensures
            r@ == self.text@.subrange(0, edit_pos(self.text@, self.cursor_pos)),
    {
        let n = self.text.as_str().unicode_len();
        let k = if self.cursor_pos <= n { self.cursor_pos } else { n };
        self.text.as_str().substring_char(0, k)
    }

    /// The text from the cursor on.
    pub fn text_after_cursor(&self) -> (r: &str)
        ensures
            r@ == self.text@.subrange(edit_pos(self.text@, self.cursor_pos), self.text@.len() as int),
    {
        let n = self.text.as_str().unicode_len();
        let k = if self.cursor_pos <= n { self.cursor_pos } else { n };
        self.text.as_str().substring_char(k, n)
    }

    /// Whether the text is empty.
    pub fn is_empty(&self) -> (b: bool)
        ensures
            b == (self.text@.len() == 0),
    {
        self.text.as_str().unicode_len() == 0
    }

    /// The length of the text, in characters.
    pub fn len(&self) -> (n: usize)
        ensures
            n == self.text@.len(),
    {
        self.text.as_str().unicode_len()
    }

    /// The text.
    pub fn text(&self) -> (r: &str)
        ensures
            r@ == self.text@,
    {
        self.text.as_str()
    }
}

impl Default for InputState {
    fn default() -> (s: Self)
        ensures
            s.text@.len() == 0,
            s.cursor_pos == 0,
            !s.focused,
            s.enabled,
            s.scroll_offset == 0,
    {
        Self::empty()
    }
}


/// Colors of a text field.
#[derive(Debug, Clone, Copy)]
pub struct InputStyle {
    pub focused_border: Color,
    pub unfocused_border: Color,
    pub disabled_border: Color,
    pub text_fg: Color,
    pub cursor_fg: Color,
    pub placeholder_fg: Color,
}

impl Default for InputStyle {
    fn default() -> (s: Self)
        ensures
            s == (InputStyle {
                focused_border: Color::Yellow,
                unfocused_border: Color::Gray,
                disabled_border: Color::DarkGray,
                text_fg: Color::White,
                cursor_fg: Color::Yellow,
                placeholder_fg: Color::DarkGray,
            }),
    {
        InputStyle {
            focused_border: Color::Yellow,
            unfocused_border: Color::Gray,
            disabled_border: Color::DarkGray,
            text_fg: Color::White,
            cursor_fg: Color::Yellow,
            placeholder_fg: Color::DarkGray,
        }
    }
}

impl InputStyle {
    /// Sets the border color used with focus.
    pub fn focused_border(self, color: Color) -> (s: Self)
        ensures
            s == (InputStyle { focused_border: color, ..self }),
    {
        InputStyle { focused_border: color, ..self }
    }

    /// Sets the border color used without focus.
    pub fn unfocused_border(self, color: Color) -> (s: Self)
        ensures
            s == (InputStyle { unfocused_border: color, ..self }),
    {
        InputStyle { unfocused_border: color, ..self }
    }

    /// Sets the text color.
    pub fn text_fg(self, color: Color) -> (s: Self)
        ensures
            s == (InputStyle { text_fg: color, ..self }),
    {
        InputStyle { text_fg: color, ..self }
    }

    /// Sets the cursor color.
    pub fn cursor_fg(self, color: Color) -> (s: Self)
        ensures
            s == (InputStyle { cursor_fg: color, ..self }),
    {
        InputStyle { cursor_fg: color, ..self }
    }

    /// Sets the placeholder color.
    pub fn placeholder_fg(self, color: Color) -> (s: Self)
        ensures
            s == (InputStyle { placeholder_fg: color, ..self }),
    {
        InputStyle { placeholder_fg: color, ..self }
    }
}

/// The text field widget.
pub struct Input<'a> {
    /// Shown in the top border.
    pub label: Option<&'a str>,
    /// Shown while the text is empty.
    pub placeholder: Option<&'a str>,
    pub state: &'a InputState,
    pub style: InputStyle,
    pub focus_id: FocusId,
    pub with_border: bool,
}

/// The spans of the field's line: the placeholder, the cursor alone, or
/// nothing while the text is empty; otherwise the text with the cursor
/// mark at the cursor when focused.
pub open spec fn input_spans(st: InputState, sty: InputStyle, placeholder: Option<&str>) -> Seq<(Seq<char>, Style)> {
    let t = st.text@;
    if t.len() == 0 {
        match placeholder {
            Some(p) => seq![(p@, fg_style(sty.placeholder_fg))],
            None => if st.focused { seq![("│"@, fg_style(sty.cursor_fg))] } else { Seq::empty() },
        }
    } else {
        let k = edit_pos(t, st.cursor_pos);
        let before = seq![(t.subrange(0, k), fg_style(sty.text_fg))];
        let cursor = if st.focused { seq![("│"@, fg_style(sty.cursor_fg))] } else { Seq::empty() };
        before + cursor + seq![(t.subrange(k, t.len() as int), fg_style(sty.text_fg))]
    }
}

impl<'a> Input<'a> {
    /// A bordered field over `state`, without label or placeholder, with
    /// the default style.
    pub fn new(state: &'a InputState) -> (i: Self)
        ensures
            i.label is None,
            i.placeholder is None,
            i.state == state,
            i.style == InputStyle::default_spec(),
            i.focus_id == (FocusId { value: 0 }),
            i.with_border,
    {
        Input {
            label: None,
            placeholder: None,
            state,
            style: InputStyle::default(),
            focus_id: FocusId::new(0),
            with_border: true,
        }
    }

    /// Sets the label.
    pub fn label(self, label: &'a str) -> (i: Self)
        ensures
            i == (Input { label: Some(label), ..self }),
    {
        Input { label: Some(label), ..self }
    }

    /// Sets the placeholder.
    pub fn placeholder(self, placeholder: &'a str) -> (i: Self)
        ensures
            i == (Input { placeholder: Some(placeholder), ..self }),
    {
        Input { placeholder: Some(placeholder), ..self }
    }

    /// Sets the style.
    pub fn style(self, style: InputStyle) -> (i: Self)
        ensures
            i == (Input { style, ..self }),
    {
        Input { style, ..self }
    }

    /// Sets the focus identifier.
    pub fn focus_id(self, id: FocusId) -> (i: Self)
        ensures
            i == (Input { focus_id: id, ..self }),
    {
        Input { focus_id: id, ..self }
    }

    /// Shows or hides the border.
    pub fn with_border(self, with_border: bool) -> (i: Self)
        ensures
            i == (Input { with_border, ..self }),
    {
        Input { with_border, ..self }
    }

    /// The border color: disabled, focused or not.
    pub fn border_color(&self) -> (c: Color)
        ensures
            c == if !self.state.enabled {
                self.style.disabled_border
            } else if self.state.focused {
                self.style.focused_border
            } else {
                self.style.unfocused_border
            },
    {
        if !self.state.enabled {
            self.style.disabled_border
        } else if self.state.focused {
            self.style.focused_border
        } else {
            self.style.unfocused_border
        }
    }

    /// The border title: the label with a space on each side.
    pub fn title(&self) -> (r: Option<String>)
        ensures
            match self.label {
                Some(l) => r matches Some(t) && t@ == " "@ + l@ + " "@,
                None => r is None,
            },
    {
        match self.label {
            Some(l) => {
                let a = concat(" ", l);
                Some(concat(a.as_str(), " "))
            },
            None => None,
        }
    }

    /// The region that focuses the input when clicked: the whole area it is
    /// drawn in.
    pub fn click_region(&self, area: Rect) -> (r: ClickRegion<InputAction>)
        ensures
            r.area == area,
            r.data == InputAction::Focus,
    {
        ClickRegion::new(area, InputAction::Focus)
    }

    /// Where the text goes: inside the border when there is one.
    pub fn inner_area(&self, area: Rect) -> (r: Rect)
        ensures
            r == if self.with_border { bordered_inner(area) } else { area },
    {
        if self.with_border {
            block_inner(area)
        } else {
            area
        }
    }

    /// The spans of the field's line (see `input_spans`).
    pub fn spans(&self) -> (r: Vec<(String, Style)>)
        ensures
            spans_match(r@, input_spans(*self.state, self.style, self.placeholder)),
    {
        let mut r: Vec<(String, Style)> = Vec::new();
        if self.state.is_empty() {
            match self.placeholder {
                Some(p) => r.push((string_from_str(p), fg(self.style.placeholder_fg))),
                None => if self.state.focused {
                    r.push((string_from_str("│"), fg(self.style.cursor_fg)));
                },
            }
        } else {
            r.push((string_from_str(self.state.text_before_cursor()), fg(self.style.text_fg)));
            if self.state.focused {
                r.push((string_from_str("│"), fg(self.style.cursor_fg)));
            }
            r.push((string_from_str(self.state.text_after_cursor()), fg(self.style.text_fg)));
        }
        r
    }
}

impl InputStyle {
    /// The default style, as a value.
    pub open spec fn default_spec() -> InputStyle {
        InputStyle {
            focused_border: Color::Yellow,
            unfocused_border: Color::Gray,
            disabled_border: Color::DarkGray,
            text_fg: Color::White,
            cursor_fg: Color::Yellow,
            placeholder_fg: Color::DarkGray,
        }
    }
}

/// Backspace undoes typing: inserting a character at a cursor within the
/// text and then deleting backward gives back the text and the cursor.
pub proof fn backspace_undoes_insert(t: Seq<char>, c: usize, x: char)
    requires
        c <= t.len(),
        c < usize::MAX,
    ensures
        ({
            let k = edit_pos(t, c);
            let t1 = t.subrange(0, k) + seq![x] + t.subrange(k, t.len() as int);
            let c1 = c + 1;
            &&& c1 - 1 == c
            &&& c1 - 1 < t1.len()
            &&& t1.remove(c1 - 1) == t
        }),
{
    let k = edit_pos(t, c);
    let t1 = t.subrange(0, k) + seq![x] + t.subrange(k, t.len() as int);
    assert(t1.remove(c as int) =~= t);
}

} // verus!
