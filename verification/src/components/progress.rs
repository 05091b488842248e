//! Progress bars: their styles, and the label a bar shows for a percentage
//! and a step counter.
use vstd::prelude::*;
use crate::style::{fg_style, with_modifier, Color, Modifier, Style};
use crate::text::{concat, decimal, usize_to_string};

verus! {

/// The colors of a progress bar and the style of its label.
#[derive(Debug, Clone, Copy, PartialEq, Eq, Structural)]
pub struct ProgressStyle {
    /// The filled part.
    pub filled_color: Color,
    /// The unfilled part.
    pub unfilled_color: Color,
    pub label_style: Style,
    pub bordered: bool,
}

impl ProgressStyle {
    /// Green on dark gray, a bold white label, with a border.
    pub open spec fn default_spec() -> ProgressStyle {
        ProgressStyle {
            filled_color: Color::Green,
            unfilled_color: Color::DarkGray,
            label_style: with_modifier(fg_style(Color::White), Modifier { bits: 1 }),
            bordered: true,
        }
    }

    /// The default style with the given colors.
    pub fn new(filled: Color, unfilled: Color) -> (s: Self)
        ensures
            s == (ProgressStyle { filled_color: filled, unfilled_color: unfilled, ..Self::default_spec() }),
    {
        ProgressStyle { filled_color: filled, unfilled_color: unfilled, ..ProgressStyle::default() }
    }

    /// The default, green style.
    pub fn success() -> (s: Self)
        ensures
            s == Self::default_spec(),
    {
        ProgressStyle::default()
    }

    /// Yellow.
    pub fn warning() -> (s: Self)
        ensures
            s == (ProgressStyle { filled_color: Color::Yellow, ..Self::default_spec() }),
    {
        ProgressStyle { filled_color: Color::Yellow, ..ProgressStyle::default() }
    }

    /// Red.
    pub fn error() -> (s: Self)
        ensures
            s == (ProgressStyle { filled_color: Color::Red, ..Self::default_spec() }),
    {
        ProgressStyle { filled_color: Color::Red, ..ProgressStyle::default() }
    }

    /// Cyan.
    pub fn info() -> (s: Self)
        ensures
            s == (ProgressStyle { filled_color: Color::Cyan, ..Self::default_spec() }),
    {
        ProgressStyle { filled_color: Color::Cyan, ..ProgressStyle::default() }
    }

    /// Sets whether there is a border.
    pub fn bordered(self, bordered: bool) -> (s: Self)
        ensures
            s == (ProgressStyle { bordered, ..self }),
    {
        ProgressStyle { bordered, ..self }
    }
}

impl Default for ProgressStyle {
    fn default() -> (s: Self)
        ensures
            s == Self::default_spec(),
    {
        ProgressStyle {
            filled_color: Color::Green,
            unfilled_color: Color::DarkGray,
            label_style: Style::new().fg(Color::White).add_modifier(Modifier::bold()),
            bordered: true,
        }
    }
}

/// The label of a bar at `percent`: "label - c/t steps (p%)", "label (p%)",
/// "c/t (p%)" or "p%", as there is a label and a step counter.
pub open spec fn progress_label_spec(label: Option<Seq<char>>, steps: Option<(usize, usize)>, percent: u16) -> Seq<char> {
    let p = decimal(percent as nat);
    match (label, steps) {
        (Some(l), Some((c, t))) => l + " - "@ + decimal(c as nat) + "/"@ + decimal(t as nat) + " steps ("@ + p + "%)"@,
        (Some(l), None) => l + " ("@ + p + "%)"@,
        (None, Some((c, t))) => decimal(c as nat) + "/"@ + decimal(t as nat) + " ("@ + p + "%)"@,
        (None, None) => p + "%"@,
    }
}

/// The text of a label, where there is one.
pub open spec fn label_view(label: Option<&str>) -> Option<Seq<char>> {
    match label {
        Some(l) => Some(l@),
        None => None,
    }
}

/// The label a bar shows at `percent` (see `progress_label_spec`).
pub fn progress_label(label: Option<&str>, steps: Option<(usize, usize)>, percent: u16) -> (r: String)
    ensures
        r@ == progress_label_spec(label_view(label), steps, percent),
{
    let p = usize_to_string(percent as usize);
    match (label, steps) {
        (Some(l), Some((c, t))) => {
            let a = concat(l, " - ");
            let b = concat(a.as_str(), usize_to_string(c).as_str());
            let d = concat(b.as_str(), "/");
            let e = concat(d.as_str(), usize_to_string(t).as_str());
            let f = concat(e.as_str(), " steps (");
            let g = concat(f.as_str(), p.as_str());
            concat(g.as_str(), "%)")
        },
        (Some(l), None) => {
            let a = concat(l, " (");
            let b = concat(a.as_str(), p.as_str());
            concat(b.as_str(), "%)")
        },
        (None, Some((c, t))) => {
            let a = concat(usize_to_string(c).as_str(), "/");
            let b = concat(a.as_str(), usize_to_string(t).as_str());
            let d = concat(b.as_str(), " (");
            let e = concat(d.as_str(), p.as_str());
            concat(e.as_str(), "%)")
        },
        (None, None) => concat(p.as_str(), "%"),
    }
}

} // verus!
