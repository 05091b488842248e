use vstd::prelude::*;
use vstd::string::*;

verus! {

/// A terminal color.
#[derive(Debug, Clone, Copy, PartialEq, Eq, Structural, Hash, Default)]
pub enum Color {
    #[default]
    Reset,
    Black,
    Red,
    Green,
    Yellow,
    Blue,
    Magenta,
    Cyan,
    Gray,
    DarkGray,
    LightRed,
    LightGreen,
    LightYellow,
    LightBlue,
    LightMagenta,
    LightCyan,
    White,
    Rgb(u8, u8, u8),
    Indexed(u8),
}

/// A set of text modifiers (bold, italic, ...), one bit each.
#[derive(Debug, Clone, Copy, PartialEq, Eq, Structural, Hash, Default)]
pub struct Modifier {
    pub bits: u16,
}

impl Modifier {
    /// Bold text.
    pub fn bold() -> (m: Modifier)
        ensures
            m.bits == 1,
    {
        Modifier { bits: 1 }
    }

    /// Dimmed text.
    pub fn dim() -> (m: Modifier)
        ensures
            m.bits == 2,
    {
        Modifier { bits: 2 }
    }

    /// Italic text.
    pub fn italic() -> (m: Modifier)
        ensures
            m.bits == 4,
    {
        Modifier { bits: 4 }
    }

    /// Underlined text.
    pub fn underlined() -> (m: Modifier)
        ensures
            m.bits == 8,
    {
        Modifier { bits: 8 }
    }

    /// Slowly blinking text.
    pub fn slow_blink() -> (m: Modifier)
        ensures
            m.bits == 16,
    {
        Modifier { bits: 16 }
    }

    /// Rapidly blinking text.
    pub fn rapid_blink() -> (m: Modifier)
        ensures
            m.bits == 32,
    {
        Modifier { bits: 32 }
    }

    /// Reversed colors.
    pub fn reversed() -> (m: Modifier)
        ensures
            m.bits == 64,
    {
        Modifier { bits: 64 }
    }

    /// Hidden text.
    pub fn hidden() -> (m: Modifier)
        ensures
            m.bits == 128,
    {
        Modifier { bits: 128 }
    }

    /// Crossed-out text.
    pub fn crossed_out() -> (m: Modifier)
        ensures
            m.bits == 256,
    {
        Modifier { bits: 256 }
    }

    /// The empty set of modifiers.
    pub fn empty() -> (m: Modifier)
        ensures
            m.bits == 0,
    {
        Modifier { bits: 0 }
    }

    /// Whether no modifier is set.
    pub fn is_empty(&self) -> (b: bool)
        ensures
            b == (self.bits == 0),
    {
        self.bits == 0
    }

    /// The modifiers set in either operand.
    pub fn union(self, other: Modifier) -> (m: Modifier)
        ensures
            m.bits == self.bits | other.bits,
    {
        Modifier { bits: self.bits | other.bits }
    }

    /// The modifiers set in `self` but not in `other`.
    pub fn difference(self, other: Modifier) -> (m: Modifier)
        ensures
            m.bits == self.bits & !other.bits,
    {
        Modifier { bits: self.bits & !other.bits }
    }

    /// Whether every modifier of `other` is set in `self`.
    pub fn contains(&self, other: Modifier) -> (b: bool)
        ensures
            b == (self.bits & other.bits == other.bits),
    {
        self.bits & other.bits == other.bits
    }
}

/// The visual style of a piece of text: colors and modifiers.
#[derive(Debug, Clone, Copy, PartialEq, Eq, Structural, Hash, Default)]
pub struct Style {
    pub fg: Option<Color>,
    pub bg: Option<Color>,
    pub underline_color: Option<Color>,
    pub add_modifier: Modifier,
    pub sub_modifier: Modifier,
}

/// The style that sets nothing.
pub open spec fn plain_style() -> Style {
    Style {
        fg: None,
        bg: None,
        underline_color: None,
        add_modifier: Modifier { bits: 0 },
        sub_modifier: Modifier { bits: 0 },
    }
}

/// `plain_style()` with the foreground color set.
pub open spec fn fg_style(c: Color) -> Style {
    Style { fg: Some(c), ..plain_style() }
}

/// `plain_style()` with both colors set.
pub open spec fn fg_bg_style(f: Color, b: Color) -> Style {
    Style { fg: Some(f), bg: Some(b), ..plain_style() }
}

/// `s` with the modifiers of `m` added (and no longer removed).
pub open spec fn with_modifier(s: Style, m: Modifier) -> Style {
    Style {
        add_modifier: Modifier { bits: s.add_modifier.bits | m.bits },
        sub_modifier: Modifier { bits: s.sub_modifier.bits & !m.bits },
        ..s
    }
}

impl Style {
    /// A style that sets nothing.
    pub fn new() -> (s: Style)
        ensures
            s == plain_style(),
    {
        Style {
            fg: None,
            bg: None,
            underline_color: None,
            add_modifier: Modifier { bits: 0 },
            sub_modifier: Modifier { bits: 0 },
        }
    }

    /// Sets the foreground color.
    pub fn fg(self, color: Color) -> (s: Style)
        ensures
            s == (Style { fg: Some(color), ..self }),
    {
        Style { fg: Some(color), ..self }
    }

    /// Sets the background color.
    pub fn bg(self, color: Color) -> (s: Style)
        ensures
            s == (Style { bg: Some(color), ..self }),
    {
        Style { bg: Some(color), ..self }
    }

    /// Sets the underline color.
    pub fn underline_color(self, color: Color) -> (s: Style)
        ensures
            s == (Style { underline_color: Some(color), ..self }),
    {
        Style { underline_color: Some(color), ..self }
    }

    /// Adds the given modifiers.
    pub fn add_modifier(self, modifier: Modifier) -> (s: Style)
        ensures
            s == with_modifier(self, modifier),
    {
        Style {
            add_modifier: self.add_modifier.union(modifier),
            sub_modifier: self.sub_modifier.difference(modifier),
            ..self
        }
    }

    /// Removes the given modifiers.
    pub fn remove_modifier(self, modifier: Modifier) -> (s: Style)
        ensures
            s == (Style {
                add_modifier: Modifier { bits: self.add_modifier.bits & !modifier.bits },
                sub_modifier: Modifier { bits: self.sub_modifier.bits | modifier.bits },
                ..self
            }),
    {
        Style {
            add_modifier: self.add_modifier.difference(modifier),
            sub_modifier: self.sub_modifier.union(modifier),
            ..self
        }
    }
}

/// A style with only the foreground color set.
pub fn fg(color: Color) -> (s: Style)
    ensures
        s == fg_style(color),
{
    Style::new().fg(color)
}

/// A style with both colors set.
pub fn fg_bg(f: Color, b: Color) -> (s: Style)
    ensures
        s == fg_bg_style(f, b),
{
    Style::new().fg(f).bg(b)
}

/// The two sequences hold the same texts and styles.
pub open spec fn spans_match(r: Seq<(String, Style)>, e: Seq<(Seq<char>, Style)>) -> bool {
    &&& r.len() == e.len()
    &&& forall|k: int| 0 <= k < r.len() ==> (#[trigger] r[k]).0@ == e[k].0 && r[k].1 == e[k].1
}

/// The lines hold the same spans, line by line.
pub open spec fn lines_match(r: Seq<Vec<(String, Style)>>, e: Seq<Seq<(Seq<char>, Style)>>) -> bool {
    &&& r.len() == e.len()
    &&& forall|k: int| 0 <= k < r.len() ==> spans_match((#[trigger] r[k])@, e[k])
}

/// Matching lines stay matching when concatenated.
pub proof fn lemma_lines_match_concat(
    a: Seq<Vec<(String, Style)>>,
    x: Seq<Seq<(Seq<char>, Style)>>,
    b: Seq<Vec<(String, Style)>>,
    y: Seq<Seq<(Seq<char>, Style)>>,
)
    requires
        lines_match(a, x),
        lines_match(b, y),
    ensures
        lines_match(a + b, x + y),
{
    assert forall|k: int| 0 <= k < (a + b).len() implies spans_match((#[trigger] (a + b)[k])@, (x + y)[k]) by {
        if k < a.len() {
            assert((a + b)[k] == a[k]);
        } else {
            assert((a + b)[k] == b[k - a.len()]);
        }
    }
}

/// A copy of the spans.
pub fn copy_spans(v: &Vec<(String, Style)>) -> (r: Vec<(String, Style)>)
    ensures
        r@.len() == v@.len(),
        forall|k: int| 0 <= k < v@.len() ==> (#[trigger] r@[k]).0@ == v@[k].0@ && r@[k].1 == v@[k].1,
{
    let mut r: Vec<(String, Style)> = Vec::new();
    let mut i: usize = 0;
    while i < v.len()
        invariant
            i <= v@.len(),
            r@.len() == i,
            forall|k: int| 0 <= k < i ==> (#[trigger] r@[k]).0@ == v@[k].0@ && r@[k].1 == v@[k].1,
        decreases v@.len() - i,
    {
        r.push((String::from_str(v[i].0.as_str()), v[i].1));
        i = i + 1;
    }
    r
}

/// Text alignment within an area.
#[derive(Debug, Clone, Copy, PartialEq, Eq, Structural, Hash, Default)]
pub enum Alignment {
    #[default]
    Left,
    Center,
    Right,
}

} // verus!
