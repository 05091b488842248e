//! Step display: a multi-step process with sub-steps and an output box per
//! step, and the lines that show it.
use vstd::prelude::*;
use crate::display::{padded, pad_to_width, truncate_to_width, truncated};
use crate::geometry::Rect;
use crate::style::{fg, fg_style, lemma_lines_match_concat, lines_match, plain_style, spans_match, with_modifier, Color, Modifier, Style};
use crate::text::{concat, decimal, fill_right, fill_right_str, string_from_str, usize_to_string};

verus! {

/// Status of a step or sub-step.
#[derive(Debug, Clone, Copy, PartialEq, Eq, Structural, Default)]
pub enum StepStatus {
    #[default]
    Pending,
    Running,
    Completed,
    Failed,
    Skipped,
}

impl StepStatus {
    /// The icon of a step with this status.
    pub fn icon(&self) -> (s: &'static str)
        ensures
            s@ == match *self {
                StepStatus::Pending => "[ ]"@,
                StepStatus::Running => "[▶]"@,
                StepStatus::Completed => "[✓]"@,
                StepStatus::Failed => "[✗]"@,
                StepStatus::Skipped => "[↷]"@,
            },
    {
        match self {
            StepStatus::Pending => "[ ]",
            StepStatus::Running => "[▶]",
            StepStatus::Completed => "[✓]",
            StepStatus::Failed => "[✗]",
            StepStatus::Skipped => "[↷]",
        }
    }

    /// The color of this status.
    pub fn color(&self) -> (c: Color)
        ensures
            c == status_color(*self),
    {
        match self {
            StepStatus::Pending => Color::DarkGray,
            StepStatus::Running => Color::Yellow,
            StepStatus::Completed => Color::Green,
            StepStatus::Failed => Color::Red,
            StepStatus::Skipped => Color::DarkGray,
        }
    }

    /// The icon of a sub-step with this status.
    pub fn sub_icon(&self) -> (s: &'static str)
        ensures
            s@ == match *self {
                StepStatus::Pending => "○"@,
                StepStatus::Running => "◐"@,
                StepStatus::Completed => "●"@,
                StepStatus::Failed => "✗"@,
                StepStatus::Skipped => "◌"@,
            },
    {
        match self {
            StepStatus::Pending => "○",
            StepStatus::Running => "◐",
            StepStatus::Completed => "●",
            StepStatus::Failed => "✗",
            StepStatus::Skipped => "◌",
        }
    }
}

/// The color of a status.
pub open spec fn status_color(s: StepStatus) -> Color {
    match s {
        StepStatus::Pending => Color::DarkGray,
        StepStatus::Running => Color::Yellow,
        StepStatus::Completed => Color::Green,
        StepStatus::Failed => Color::Red,
        StepStatus::Skipped => Color::DarkGray,
    }
}

/// A sub-step of a step.
#[derive(Debug, Clone)]
pub struct SubStep {
    pub name: String,
    pub status: StepStatus,
}

impl SubStep {
    /// A pending sub-step.
    pub fn new(name: &str) -> (s: Self)
        ensures
            s.name@ == name@,
            s.status == StepStatus::Pending,
    {
        SubStep { name: string_from_str(name), status: StepStatus::Pending }
    }
}

/// Number of output lines the output box shows when a step scrolls itself.
pub const OUTPUT_LINES: usize = 5;

/// A step: its status, sub-steps and output.
#[derive(Debug, Clone)]
pub struct Step {
    pub name: String,
    pub status: StepStatus,
    pub sub_steps: Vec<SubStep>,
    /// Whether the sub-steps and output are shown.
    pub expanded: bool,
    pub output: Vec<String>,
    /// First output line shown.
    pub scroll: u16,
}

/// The number of completed entries among the first `n` statuses.
pub open spec fn completed_count(s: Seq<StepStatus>, n: int) -> nat
    decreases n,
{
    if n <= 0 {
        0
    } else {
        completed_count(s, n - 1) + if s[n - 1] == StepStatus::Completed { 1nat } else { 0nat }
    }
}

/// The statuses of the sub-steps.
pub open spec fn sub_statuses(v: Seq<SubStep>) -> Seq<StepStatus> {
    Seq::new(v.len(), |i: int| v[i].status)
}

/// The statuses of the steps.
pub open spec fn step_statuses(v: Seq<Step>) -> Seq<StepStatus> {
    Seq::new(v.len(), |i: int| v[i].status)
}

impl Step {
    /// A pending, collapsed step with no sub-step and no output.
    pub fn new(name: &str) -> (s: Self)
        ensures
            s.name@ == name@,
            s.status == StepStatus::Pending,
            s.sub_steps@.len() == 0,
            !s.expanded,
            s.output@.len() == 0,
            s.scroll == 0,
    {
        Step {
            name: string_from_str(name),
            status: StepStatus::Pending,
            sub_steps: Vec::new(),
            expanded: false,
            output: Vec::new(),
            scroll: 0,
        }
    }

    /// Replaces the sub-steps with pending ones of the given names.
    pub fn with_sub_steps(self, names: Vec<&str>) -> (s: Self)
        ensures
            s.sub_steps@.len() == names@.len(),
            forall|i: int| 0 <= i < names@.len() ==> (#[trigger] s.sub_steps@[i]).name@ == names@[i]@
                && s.sub_steps@[i].status == StepStatus::Pending,
            s.name == self.name,
            s.status == self.status,
            s.expanded == self.expanded,
            s.output == self.output,
            s.scroll == self.scroll,
    {
        let mut subs: Vec<SubStep> = Vec::new();
        let mut i: usize = 0;
        while i < names.len()
            invariant
                i <= names@.len(),
                subs@.len() == i,
                forall|j: int| 0 <= j < i ==> (#[trigger] subs@[j]).name@ == names@[j]@
                    && subs@[j].status == StepStatus::Pending,
            decreases names@.len() - i,
        {
            subs.push(SubStep::new(names[i]));
            i = i + 1;
        }
        Step { sub_steps: subs, ..self }
    }

    /// Appends an output line and scrolls to the last 5 lines.
    pub fn add_output(&mut self, line: &str)
        ensures
            final(self).output@.len() == old(self).output@.len() + 1,
            forall|i: int| 0 <= i < old(self).output@.len() ==> final(self).output@[i] == old(self).output@[i],
            final(self).output@.last()@ == line@,
            final(self).scroll == if final(self).output@.len() > OUTPUT_LINES {
                (final(self).output@.len() - OUTPUT_LINES) as u16
            } else {
                old(self).scroll
            },
            final(self).name == old(self).name,
            final(self).status == old(self).status,
            final(self).sub_steps == old(self).sub_steps,
            final(self).expanded == old(self).expanded,
    {
        self.output.push(string_from_str(line));
        if self.output.len() > OUTPUT_LINES {
            self.scroll = (self.output.len() - OUTPUT_LINES) as u16;
        }
    }

    /// Removes the output.
    pub fn clear_output(&mut self)
        ensures
            final(self).output@.len() == 0,
            final(self).scroll == 0,
            final(self).name == old(self).name,
            final(self).status == old(self).status,
            final(self).sub_steps == old(self).sub_steps,
            final(self).expanded == old(self).expanded,
    {
        self.output.clear();
        self.scroll = 0;
    }

    /// The completed sub-steps, and all sub-steps.
    pub fn sub_step_progress(&self) -> (r: (usize, usize))
        ensures
            r.0 == completed_count(sub_statuses(self.sub_steps@), self.sub_steps@.len() as int),
            r.1 == self.sub_steps@.len(),
    {
        let mut c: usize = 0;
        let mut i: usize = 0;
        while i < self.sub_steps.len()
            invariant
                i <= self.sub_steps@.len(),
                c == completed_count(sub_statuses(self.sub_steps@), i as int),
                c <= i,
            decreases self.sub_steps@.len() - i,
        {
            if self.sub_steps[i].status == StepStatus::Completed {
                c = c + 1;
            }
            i = i + 1;
        }
        (c, self.sub_steps.len())
    }
}

/// State of the step display.
#[derive(Debug, Clone)]
pub struct StepDisplayState {
    pub steps: Vec<Step>,
    /// The step whose output box has focus.
    pub focused_step: Option<usize>,
    /// First line shown.
    pub scroll: u16,
}

/// The steps are `before`'s, except step `index`, which `f` relates.
pub open spec fn steps_changed_at(before: Seq<Step>, after: Seq<Step>, index: usize, f: spec_fn(Step, Step) -> bool) -> bool {
    &&& after.len() == before.len()
    &&& forall|i: int| 0 <= i < before.len() && i != index ==> after[i] == before[i]
    &&& index < before.len() ==> f(before[index as int], after[index as int])
    &&& index >= before.len() ==> after == before
}

/// The status of the step became `status`; nothing else changed.
pub open spec fn status_set(a: Step, b: Step, status: StepStatus) -> bool {
    b == Step { status, ..a }
}

/// The first step neither completed nor skipped, among the first `n`.
pub open spec fn first_open(s: Seq<StepStatus>, r: usize) -> bool {
    &&& r <= s.len()
    &&& forall|i: int| 0 <= i < r ==> #[trigger] s[i] == StepStatus::Completed || s[i] == StepStatus::Skipped
    &&& r < s.len() ==> s[r as int] != StepStatus::Completed && s[r as int] != StepStatus::Skipped
}

impl StepDisplayState {
    /// A display of the steps, none focused, not scrolled.
    pub fn new(steps: Vec<Step>) -> (s: Self)
        ensures
            s.steps == steps,
            s.focused_step is None,
            s.scroll == 0,
    {
        StepDisplayState { steps, focused_step: None, scroll: 0 }
    }

    /// The number of completed steps.
    pub fn completed_steps(&self) -> (n: usize)
        ensures
            n == completed_count(step_statuses(self.steps@), self.steps@.len() as int),
    {
        let mut c: usize = 0;
        let mut i: usize = 0;
        while i < self.steps.len()
            invariant
                i <= self.steps@.len(),
                c == completed_count(step_statuses(self.steps@), i as int),
                c <= i,
            decreases self.steps@.len() - i,
        {
            if self.steps[i].status == StepStatus::Completed {
                c = c + 1;
            }
            i = i + 1;
        }
        c
    }

    /// The first step neither completed nor skipped; the number of steps
    /// when there is none.
    pub fn current_step(&self) -> (r: usize)
        ensures
            first_open(step_statuses(self.steps@), r),
    {
        let mut i: usize = 0;
        while i < self.steps.len()
            invariant
                i <= self.steps@.len(),
                forall|j: int| 0 <= j < i ==> #[trigger] step_statuses(self.steps@)[j] == StepStatus::Completed
                    || step_statuses(self.steps@)[j] == StepStatus::Skipped,
            decreases self.steps@.len() - i,
        {
            let st = self.steps[i].status;
            if st != StepStatus::Completed && st != StepStatus::Skipped {
                return i;
            }
            i = i + 1;
        }
        i
    }

    /// Sets the status of step `index`, when there is one.
    fn set_status(&mut self, index: usize, status: StepStatus)
        ensures
            steps_changed_at(old(self).steps@, final(self).steps@, index, |a: Step, b: Step| status_set(a, b, status)),
            final(self).focused_step == old(self).focused_step,
            final(self).scroll == old(self).scroll,
    {
        if index < self.steps.len() {
            let mut step = self.steps.remove(index);
            step.status = status;
            self.steps.insert(index, step);
        }
    }

    /// Marks step `index` running and expands it.
    pub fn start_step(&mut self, index: usize)
        ensures
            steps_changed_at(old(self).steps@, final(self).steps@, index,
                |a: Step, b: Step| b == (Step { status: StepStatus::Running, expanded: true, ..a })),
            final(self).focused_step == old(self).focused_step,
            final(self).scroll == old(self).scroll,
    {
        if index < self.steps.len() {
            let mut step = self.steps.remove(index);
            step.status = StepStatus::Running;
            step.expanded = true;
            self.steps.insert(index, step);
        }
    }

    /// Marks step `index` completed.
    pub fn complete_step(&mut self, index: usize)
        ensures
            steps_changed_at(old(self).steps@, final(self).steps@, index, |a: Step, b: Step| status_set(a, b, StepStatus::Completed)),
            final(self).focused_step == old(self).focused_step,
            final(self).scroll == old(self).scroll,
    {
        self.set_status(index, StepStatus::Completed);
    }

    /// Marks step `index` failed.
    pub fn fail_step(&mut self, index: usize)
        ensures
            steps_changed_at(old(self).steps@, final(self).steps@, index, |a: Step, b: Step| status_set(a, b, StepStatus::Failed)),
            final(self).focused_step == old(self).focused_step,
            final(self).scroll == old(self).scroll,
    {
        self.set_status(index, StepStatus::Failed);
    }

    /// Marks step `index` skipped.
    pub fn skip_step(&mut self, index: usize)
        ensures
            steps_changed_at(old(self).steps@, final(self).steps@, index, |a: Step, b: Step| status_set(a, b, StepStatus::Skipped)),
            final(self).focused_step == old(self).focused_step,
            final(self).scroll == old(self).scroll,
    {
        self.set_status(index, StepStatus::Skipped);
    }

    /// Sets the status of sub-step `sub_index` of step `step_index`, when
    /// both exist.
    fn set_sub_status(&mut self, step_index: usize, sub_index: usize, status: StepStatus)
        ensures
            steps_changed_at(old(self).steps@, final(self).steps@, step_index, |a: Step, b: Step|
                b.name == a.name && b.status == a.status && b.expanded == a.expanded && b.output == a.output
                && b.scroll == a.scroll && b.sub_steps@.len() == a.sub_steps@.len()
                && (forall|j: int| 0 <= j < a.sub_steps@.len() && j != sub_index ==> b.sub_steps@[j] == a.sub_steps@[j])
                && (sub_index < a.sub_steps@.len() ==> b.sub_steps@[sub_index as int] == (SubStep { status, ..a.sub_steps@[sub_index as int] }))),
            final(self).focused_step == old(self).focused_step,
            final(self).scroll == old(self).scroll,
    {
        if step_index < self.steps.len() {
            let mut step = self.steps.remove(step_index);
            if sub_index < step.sub_steps.len() {
                let mut sub = step.sub_steps.remove(sub_index);
                sub.status = status;
                step.sub_steps.insert(sub_index, sub);
            }
            self.steps.insert(step_index, step);
        }
    }

    /// Marks a sub-step running.
    pub fn start_sub_step(&mut self, step_index: usize, sub_index: usize)
        ensures
            steps_changed_at(old(self).steps@, final(self).steps@, step_index, |a: Step, b: Step|
                b.name == a.name && b.status == a.status && b.expanded == a.expanded && b.output == a.output
                && b.scroll == a.scroll && b.sub_steps@.len() == a.sub_steps@.len()
                && (forall|j: int| 0 <= j < a.sub_steps@.len() && j != sub_index ==> b.sub_steps@[j] == a.sub_steps@[j])
                && (sub_index < a.sub_steps@.len() ==> b.sub_steps@[sub_index as int] == (SubStep { status: StepStatus::Running, ..a.sub_steps@[sub_index as int] }))),
            final(self).focused_step == old(self).focused_step,
            final(self).scroll == old(self).scroll,
    {
        self.set_sub_status(step_index, sub_index, StepStatus::Running);
    }

    /// Marks a sub-step completed.
    pub fn complete_sub_step(&mut self, step_index: usize, sub_index: usize)
        ensures
            steps_changed_at(old(self).steps@, final(self).steps@, step_index, |a: Step, b: Step|
                b.name == a.name && b.status == a.status && b.expanded == a.expanded && b.output == a.output
                && b.scroll == a.scroll && b.sub_steps@.len() == a.sub_steps@.len()
                && (forall|j: int| 0 <= j < a.sub_steps@.len() && j != sub_index ==> b.sub_steps@[j] == a.sub_steps@[j])
                && (sub_index < a.sub_steps@.len() ==> b.sub_steps@[sub_index as int] == (SubStep { status: StepStatus::Completed, ..a.sub_steps@[sub_index as int] }))),
            final(self).focused_step == old(self).focused_step,
            final(self).scroll == old(self).scroll,
    {
        self.set_sub_status(step_index, sub_index, StepStatus::Completed);
    }

    /// Appends an output line to step `step_index` (see `Step::add_output`).
    pub fn add_output(&mut self, step_index: usize, line: &str)
        ensures
            steps_changed_at(old(self).steps@, final(self).steps@, step_index, |a: Step, b: Step|
                b.name == a.name && b.status == a.status && b.sub_steps == a.sub_steps && b.expanded == a.expanded
                && b.output@ == a.output@.push(b.output@.last()) && b.output@.last()@ == line@
                && b.scroll == if b.output@.len() > OUTPUT_LINES { (b.output@.len() - OUTPUT_LINES) as u16 } else { a.scroll }),
            final(self).focused_step == old(self).focused_step,
            final(self).scroll == old(self).scroll,
    {
        if step_index < self.steps.len() {
            let mut step = self.steps.remove(step_index);
            let ghost a = step;
            step.add_output(line);
            assert(step.output@ =~= a.output@.push(step.output@.last()));
            self.steps.insert(step_index, step);
        }
    }

    /// Expands or collapses step `index`.
    pub fn toggle_expanded(&mut self, index: usize)
        ensures
            steps_changed_at(old(self).steps@, final(self).steps@, index,
                |a: Step, b: Step| b == (Step { expanded: !a.expanded, ..a })),
            final(self).focused_step == old(self).focused_step,
            final(self).scroll == old(self).scroll,
    {
        if index < self.steps.len() {
            let mut step = self.steps.remove(index);
            step.expanded = !step.expanded;
            self.steps.insert(index, step);
        }
    }

    /// Scrolls the output of step `index` by `delta` lines, within the
    /// lines beyond the last 5. Counts go through `i32` as the widget does.
    pub fn scroll_output(&mut self, index: usize, delta: i32)
        requires
            index < old(self).steps@.len() ==> {
                let step = old(self).steps@[index as int];
                let max = (if step.output@.len() >= OUTPUT_LINES { step.output@.len() - OUTPUT_LINES } else { 0 }) as i32;
                &&& i32::MIN <= step.scroll + delta <= i32::MAX
                &&& max >= 0
            },
        ensures
            steps_changed_at(old(self).steps@, final(self).steps@, index, |a: Step, b: Step| {
                let max = (if a.output@.len() >= OUTPUT_LINES { a.output@.len() - OUTPUT_LINES } else { 0 }) as i32;
                let t = a.scroll + delta;
                b == Step { scroll: (if t < 0 { 0 } else if t > max { max as int } else { t }) as u16, ..a }
            }),
            final(self).focused_step == old(self).focused_step,
            final(self).scroll == old(self).scroll,
    {
        if index < self.steps.len() {
            let mut step = self.steps.remove(index);
            let max_scroll = step.output.len().saturating_sub(OUTPUT_LINES) as i32;
            let t = step.scroll as i32 + delta;
            let new_scroll = if t < 0 {
                0
            } else if t > max_scroll {
                max_scroll
            } else {
                t
            };
            step.scroll = new_scroll as u16;
            self.steps.insert(index, step);
        }
    }
}

/// Border colors and size of the output boxes.
#[derive(Debug, Clone, Copy)]
pub struct StepDisplayStyle {
    pub focused_border: Color,
    pub unfocused_border: Color,
    /// Output lines shown in a box.
    pub max_output_lines: usize,
}

impl Default for StepDisplayStyle {
    fn default() -> (s: Self)
        ensures
            s.focused_border == Color::Cyan,
            s.unfocused_border == Color::DarkGray,
            s.max_output_lines == 5,
    {
        StepDisplayStyle { focused_border: Color::Cyan, unfocused_border: Color::DarkGray, max_output_lines: 5 }
    }
}


/// The step display widget: a state and a style.
pub struct StepDisplay<'a> {
    pub state: &'a StepDisplayState,
    pub style: StepDisplayStyle,
}

/// The style of a step's title.
pub open spec fn step_title_style(s: StepStatus) -> Style {
    match s {
        StepStatus::Running => with_modifier(fg_style(Color::Yellow), Modifier { bits: 1 }),
        StepStatus::Failed => fg_style(Color::Red),
        StepStatus::Completed => fg_style(Color::Green),
        _ => fg_style(Color::White),
    }
}

/// The style of a sub-step's name.
pub open spec fn sub_style(s: StepStatus) -> Style {
    match s {
        StepStatus::Running => fg_style(Color::Yellow),
        StepStatus::Completed => fg_style(Color::Green),
        StepStatus::Failed => fg_style(Color::Red),
        StepStatus::Skipped => fg_style(Color::DarkGray),
        _ => fg_style(Color::White),
    }
}

/// The icon of a status, as text.
pub open spec fn icon_of(s: StepStatus) -> Seq<char> {
    match s {
        StepStatus::Pending => "[ ]"@,
        StepStatus::Running => "[▶]"@,
        StepStatus::Completed => "[✓]"@,
        StepStatus::Failed => "[✗]"@,
        StepStatus::Skipped => "[↷]"@,
    }
}

/// The sub-step icon of a status, as text.
pub open spec fn sub_icon_of(s: StepStatus) -> Seq<char> {
    match s {
        StepStatus::Pending => "○"@,
        StepStatus::Running => "◐"@,
        StepStatus::Completed => "●"@,
        StepStatus::Failed => "✗"@,
        StepStatus::Skipped => "◌"@,
    }
}

/// The header line of step `idx`: icon, "Step n: ", name, and the
/// sub-step progress when there are sub-steps.
pub open spec fn header_spans(idx: int, step: Step) -> Seq<(Seq<char>, Style)> {
    let st = step_title_style(step.status);
    let n = step.sub_steps@.len();
    let suffix = if n > 0 {
        " ("@ + decimal(completed_count(sub_statuses(step.sub_steps@), n as int)) + "/"@ + decimal(n) + ")"@
    } else {
        Seq::empty()
    };
    seq![
        (icon_of(step.status) + " "@, fg_style(status_color(step.status))),
        ("Step "@ + decimal((idx + 1) as nat) + ": "@, st),
        (step.name@, st),
        (suffix, fg_style(Color::DarkGray)),
    ]
}

/// The line of a sub-step: indentation, icon, name.
pub open spec fn sub_spans(sub: SubStep) -> Seq<(Seq<char>, Style)> {
    seq![
        ("    "@, plain_style()),
        (sub_icon_of(sub.status) + " "@, fg_style(status_color(sub.status))),
        (sub.name@, sub_style(sub.status)),
    ]
}

/// The sub-steps are listed: there are some, and the step is expanded or
/// running.
pub open spec fn subs_shown(step: Step) -> bool {
    step.sub_steps@.len() > 0 && (step.expanded || step.status == StepStatus::Running)
}

/// The output box is shown: the step is expanded and has output.
pub open spec fn box_shown(step: Step) -> bool {
    step.expanded && step.output@.len() > 0
}

/// The output line `i` of the box: cut to the content width, or empty past
/// the end.
pub open spec fn box_content(step: Step, i: int, cw: nat) -> Seq<char> {
    let k = step.scroll + i;
    if k < step.output@.len() { truncated(step.output@[k]@, cw) } else { Seq::empty() }
}

/// The lines of the output box of step `idx` in `fw` columns: a top border
/// titled " Output ", the visible output lines between side borders, a
/// bottom border with the line count when the output is longer than the
/// box, and an empty line.
pub open spec fn box_lines(st: StepDisplayState, sty: StepDisplayStyle, fw: nat, idx: int, step: Step) -> Seq<Seq<(Seq<char>, Style)>> {
    let border = fg_style(if st.focused_step == Some(idx as usize) { sty.focused_border } else { sty.unfocused_border });
    let bw: int = if fw >= 6 { fw - 6 } else { 0 };
    let cw: nat = if fw >= 8 { (fw - 8) as nat } else { 0 };
    let vis = sty.max_output_lines;
    let total = step.output@.len();
    let info = if total > vis {
        " ["@ + decimal((step.scroll + if vis < total { vis as nat } else { total }) as nat) + "/"@ + decimal(total) + " lines] "@
    } else {
        Seq::empty()
    };
    let top = seq![seq![("  ┌"@ + fill_right(" Output "@, bw, '─') + "┐  "@, border)]];
    let content = Seq::new(vis as nat, |i: int| seq![
        ("  │ "@, border),
        (padded(box_content(step, i, cw), cw), fg_style(Color::Gray)),
        (" │  "@, border),
    ]);
    let bottom = seq![seq![("  └"@ + fill_right(info, bw, '─') + "┘  "@, border)], Seq::<(Seq<char>, Style)>::empty()];
    top + content + bottom
}

/// All lines of step `idx`: header, sub-steps when listed, output box when
/// shown.
pub open spec fn step_block(st: StepDisplayState, sty: StepDisplayStyle, fw: nat, idx: int) -> Seq<Seq<(Seq<char>, Style)>> {
    let step = st.steps@[idx];
    let subs = if subs_shown(step) {
        Seq::new(step.sub_steps@.len(), |j: int| sub_spans(step.sub_steps@[j]))
    } else {
        Seq::empty()
    };
    let bx = if box_shown(step) { box_lines(st, sty, fw, idx, step) } else { Seq::empty() };
    seq![header_spans(idx, step)] + subs + bx
}

/// The lines of the first `n` steps.
pub open spec fn steps_lines(st: StepDisplayState, sty: StepDisplayStyle, fw: nat, n: int) -> Seq<Seq<(Seq<char>, Style)>>
    decreases n,
{
    if n <= 0 { Seq::empty() } else { steps_lines(st, sty, fw, n - 1) + step_block(st, sty, fw, n - 1) }
}

/// The output boxes can count their lines in `usize`.
pub open spec fn boxes_countable(st: StepDisplayState, sty: StepDisplayStyle) -> bool {
    forall|i: int| 0 <= i < st.steps@.len() && box_shown(#[trigger] st.steps@[i]) ==>
        st.steps@[i].scroll + sty.max_output_lines <= usize::MAX
}

/// The height of step `s`: its header, listed sub-steps (counted in
/// `u16`), and the output box (its lines counted in `u16`, plus borders and
/// the empty line).
pub open spec fn step_height(s: Step, sty: StepDisplayStyle) -> int {
    1 + (if subs_shown(s) { (s.sub_steps@.len() as u16) as int } else { 0 })
        + (if box_shown(s) { 3 + (sty.max_output_lines as u16) as int } else { 0 })
}

/// The height of the first `n` steps.
pub open spec fn height_of(steps: Seq<Step>, sty: StepDisplayStyle, n: int) -> int
    decreases n,
{
    if n <= 0 { 0 } else { height_of(steps, sty, n - 1) + step_height(steps[n - 1], sty) }
}

proof fn lemma_height_monotone(steps: Seq<Step>, sty: StepDisplayStyle, a: int, b: int)
    requires
        0 <= a <= b,
    ensures
        height_of(steps, sty, a) <= height_of(steps, sty, b),
    decreases b - a,
{
    if a < b {
        lemma_height_monotone(steps, sty, a, b - 1);
    }
}

/// The height that `calculate_height` gives is the number of lines that
/// `build_lines` draws, wherever the counts it truncates to `u16` fit in
/// `u16`: the sub-steps of each step that lists them, and the output lines
/// of each box shown.
pub proof fn height_counts_lines(st: StepDisplayState, sty: StepDisplayStyle, fw: nat, n: int)
    requires
        0 <= n <= st.steps@.len(),
        forall|i: int| 0 <= i < n && subs_shown(#[trigger] st.steps@[i]) ==> st.steps@[i].sub_steps@.len() <= u16::MAX,
        forall|i: int| 0 <= i < n && box_shown(#[trigger] st.steps@[i]) ==> sty.max_output_lines <= u16::MAX,
    ensures
        steps_lines(st, sty, fw, n).len() == height_of(st.steps@, sty, n),
    decreases n,
{
    if n > 0 {
        height_counts_lines(st, sty, fw, n - 1);
        let step = st.steps@[n - 1];
        if box_shown(step) {
            assert(box_lines(st, sty, fw, n - 1, step).len() == 3 + sty.max_output_lines);
        }
    }
}

/// The height the display needs: every line of every step.
pub fn calculate_height(state: &StepDisplayState, style: &StepDisplayStyle) -> (h: u16)
    requires
        height_of(state.steps@, *style, state.steps@.len() as int) <= u16::MAX,
    ensures
        h == height_of(state.steps@, *style, state.steps@.len() as int),
{
    let mut height: u16 = 0;
    let mut i: usize = 0;
    while i < state.steps.len()
        invariant
            i <= state.steps@.len(),
            height == height_of(state.steps@, *style, i as int),
            height_of(state.steps@, *style, state.steps@.len() as int) <= u16::MAX,
        decreases state.steps@.len() - i,
    {
        proof {
            lemma_height_monotone(state.steps@, *style, i + 1, state.steps@.len() as int);
        }
        let step = &state.steps[i];
        height = height + 1;
        if step.sub_steps.len() > 0 && (step.expanded || step.status == StepStatus::Running) {
            height = height + step.sub_steps.len() as u16;
        }
        if step.expanded && step.output.len() > 0 {
            height = height + 2;
            height = height + style.max_output_lines as u16;
            height = height + 1;
        }
        i = i + 1;
    }
    height
}


/// The header line of step `idx`.
fn header_line(idx: usize, step: &Step) -> (r: Vec<(String, Style)>)
    requires
        idx < usize::MAX,
    ensures
        spans_match(r@, header_spans(idx as int, *step)),
{
    let title_style = match step.status {
        StepStatus::Running => fg(Color::Yellow).add_modifier(Modifier::bold()),
        StepStatus::Failed => fg(Color::Red),
        StepStatus::Completed => fg(Color::Green),
        _ => fg(Color::White),
    };
    let suffix = if step.sub_steps.len() > 0 {
        let (done, total) = step.sub_step_progress();
        let a = concat(" (", usize_to_string(done).as_str());
        let b = concat(a.as_str(), "/");
        let c = concat(b.as_str(), usize_to_string(total).as_str());
        concat(c.as_str(), ")")
    } else {
        String::new()
    };
    let mut r: Vec<(String, Style)> = Vec::new();
    r.push((concat(step.status.icon(), " "), fg(step.status.color())));
    let n = concat("Step ", usize_to_string(idx + 1).as_str());
    r.push((concat(n.as_str(), ": "), title_style));
    r.push((string_from_str(step.name.as_str()), title_style));
    r.push((suffix, fg(Color::DarkGray)));
    r
}

/// The line of a sub-step.
fn sub_line(sub: &SubStep) -> (r: Vec<(String, Style)>)
    ensures
        spans_match(r@, sub_spans(*sub)),
{
    let st = match sub.status {
        StepStatus::Running => fg(Color::Yellow),
        StepStatus::Completed => fg(Color::Green),
        StepStatus::Failed => fg(Color::Red),
        StepStatus::Skipped => fg(Color::DarkGray),
        _ => fg(Color::White),
    };
    let mut r: Vec<(String, Style)> = Vec::new();
    r.push((string_from_str("    "), Style::new()));
    r.push((concat(sub.status.sub_icon(), " "), fg(sub.status.color())));
    r.push((string_from_str(sub.name.as_str()), st));
    r
}

impl<'a> StepDisplay<'a> {
    /// A display of `state` with the default style.
    pub fn new(state: &'a StepDisplayState) -> (d: Self)
        ensures
            d.state == state,
            d.style.focused_border == Color::Cyan,
            d.style.unfocused_border == Color::DarkGray,
            d.style.max_output_lines == 5,
    {
        StepDisplay { state, style: StepDisplayStyle::default() }
    }

    /// Sets the style.
    pub fn style(self, style: StepDisplayStyle) -> (d: Self)
        ensures
            d.state == self.state,
            d.style == style,
    {
        StepDisplay { state: self.state, style }
    }

    /// The output box lines of step `idx` in `fw` columns.
    fn box_block(&self, fw: usize, idx: usize) -> (r: Vec<Vec<(String, Style)>>)
        requires
            idx < self.state.steps@.len(),
            box_shown(self.state.steps@[idx as int]),
            boxes_countable(*self.state, self.style),
        ensures
            lines_match(r@, box_lines(*self.state, self.style, fw as nat, idx as int, self.state.steps@[idx as int])),
    {
        let step = &self.state.steps[idx];
        let ghost e = box_lines(*self.state, self.style, fw as nat, idx as int, *step);
        let focused = match self.state.focused_step {
            Some(f) => f == idx,
            None => false,
        };
        let border = fg(if focused { self.style.focused_border } else { self.style.unfocused_border });
        let bw = fw.saturating_sub(6);
        let cw = fw.saturating_sub(8);
        let vis = self.style.max_output_lines;
        let total = step.output.len();
        let scroll = step.scroll as usize;
        assert(scroll + vis <= usize::MAX);
        let mut r: Vec<Vec<(String, Style)>> = Vec::new();
        let top_a = concat("  ┌", fill_right_str(" Output ", bw, '─').as_str());
        let mut top: Vec<(String, Style)> = Vec::new();
        top.push((concat(top_a.as_str(), "┐  "), border));
        r.push(top);
        let mut i: usize = 0;
        while i < vis
            invariant
                i <= vis,
                vis == self.style.max_output_lines,
                scroll == step.scroll,
                scroll + vis <= usize::MAX,
                cw == (if fw >= 8 { (fw - 8) as nat } else { 0nat }),
                total == step.output@.len(),
                e == box_lines(*self.state, self.style, fw as nat, idx as int, *step),
                border == fg_style(if self.state.focused_step == Some(idx) { self.style.focused_border } else { self.style.unfocused_border }),
                r@.len() == 1 + i,
                lines_match(r@, e.subrange(0, 1 + i)),
            decreases vis - i,
        {
            let k = scroll + i;
            let content = if k < total {
                truncate_to_width(step.output[k].as_str(), cw)
            } else {
                String::new()
            };
            let mut line: Vec<(String, Style)> = Vec::new();
            line.push((string_from_str("  │ "), border));
            line.push((pad_to_width(content.as_str(), cw), fg(Color::Gray)));
            line.push((string_from_str(" │  "), border));
            let ghost before = r@;
            r.push(line);
            proof {
                assert(spans_match(line@, e[1 + i]));
                assert forall|m: int| 0 <= m < r@.len() implies spans_match((#[trigger] r@[m])@, e.subrange(0, 2 + i)[m]) by {
                    if m < before.len() {
                        assert(r@[m] == before[m]);
                    }
                }
            }
            i = i + 1;
        }
        let info = if total > vis {
            let shown = if vis < total { vis } else { total };
            let a = concat(" [", usize_to_string(scroll + shown).as_str());
            let b = concat(a.as_str(), "/");
            let c = concat(b.as_str(), usize_to_string(total).as_str());
            concat(c.as_str(), " lines] ")
        } else {
            String::new()
        };
        let bottom_a = concat("  └", fill_right_str(info.as_str(), bw, '─').as_str());
        let mut bottom: Vec<(String, Style)> = Vec::new();
        bottom.push((concat(bottom_a.as_str(), "┘  "), border));
        let ghost before = r@;
        r.push(bottom);
        let ghost before2 = r@;
        r.push(Vec::new());
        proof {
            assert(e.len() == vis + 3);
            assert forall|m: int| 0 <= m < r@.len() implies spans_match((#[trigger] r@[m])@, e[m]) by {
                if m < before.len() {
                    assert(r@[m] == before[m]);
                    assert(e.subrange(0, 1 + vis as int)[m] == e[m]);
                } else if m == before.len() {
                    assert(r@[m] == before2[m]);
                }
            }
        }
        r
    }

    /// The lines of step `idx` in `fw` columns (see `step_block`).
    fn step_lines(&self, fw: usize, idx: usize) -> (r: Vec<Vec<(String, Style)>>)
        requires
            idx < self.state.steps@.len(),
            boxes_countable(*self.state, self.style),
        ensures
            lines_match(r@, step_block(*self.state, self.style, fw as nat, idx as int)),
    {
        let n = self.state.steps.len();
        let step = &self.state.steps[idx];
        let mut r: Vec<Vec<(String, Style)>> = Vec::new();
        r.push(header_line(idx, step));
        let ghost head = seq![header_spans(idx as int, *step)];
        let ghost subs = if subs_shown(*step) {
            Seq::new(step.sub_steps@.len(), |j: int| sub_spans(step.sub_steps@[j]))
        } else {
            Seq::empty()
        };
        if step.sub_steps.len() > 0 && (step.expanded || step.status == StepStatus::Running) {
            let mut j: usize = 0;
            while j < step.sub_steps.len()
                invariant
                    j <= step.sub_steps@.len(),
                    subs_shown(*step),
                    subs == Seq::new(step.sub_steps@.len(), |j: int| sub_spans(step.sub_steps@[j])),
                    lines_match(r@, head + subs.subrange(0, j as int)),
                decreases step.sub_steps@.len() - j,
            {
                let line = sub_line(&step.sub_steps[j]);
                let ghost before = r@;
                r.push(line);
                proof {
                    assert(head + subs.subrange(0, j + 1) =~= (head + subs.subrange(0, j as int)).push(sub_spans(step.sub_steps@[j as int])));
                    assert forall|m: int| 0 <= m < r@.len() implies spans_match((#[trigger] r@[m])@, (head + subs.subrange(0, j + 1))[m]) by {
                        if m < before.len() {
                            assert(r@[m] == before[m]);
                        }
                    }
                }
                j = j + 1;
            }
            assert(subs.subrange(0, step.sub_steps@.len() as int) =~= subs);
        } else {
            assert(head + subs =~= head);
        }
        if step.expanded && step.output.len() > 0 {
            let mut b = self.box_block(fw, idx);
            let ghost rv = r@;
            let ghost bv = b@;
            r.append(&mut b);
            proof {
                lemma_lines_match_concat(rv, head + subs, bv, box_lines(*self.state, self.style, fw as nat, idx as int, *step));
                assert(r@ =~= rv + bv);
            }
        } else {
            assert(head + subs + Seq::<Seq<(Seq<char>, Style)>>::empty() =~= head + subs);
        }
        r
    }

    /// The lines of every step inside `area`, in order (see `steps_lines`).
    pub fn build_lines(&self, area: Rect) -> (r: Vec<Vec<(String, Style)>>)
        requires
            boxes_countable(*self.state, self.style),
        ensures
            lines_match(r@, steps_lines(*self.state, self.style, area.width as nat, self.state.steps@.len() as int)),
    {
        let fw = area.width as usize;
        let mut r: Vec<Vec<(String, Style)>> = Vec::new();
        let mut i: usize = 0;
        while i < self.state.steps.len()
            invariant
                i <= self.state.steps@.len(),
                fw == area.width,
                boxes_countable(*self.state, self.style),
                lines_match(r@, steps_lines(*self.state, self.style, fw as nat, i as int)),
            decreases self.state.steps@.len() - i,
        {
            let mut b = self.step_lines(fw, i);
            let ghost rv = r@;
            let ghost bv = b@;
            r.append(&mut b);
            proof {
                lemma_lines_match_concat(rv, steps_lines(*self.state, self.style, fw as nat, i as int), bv,
                    step_block(*self.state, self.style, fw as nat, i as int));
                assert(r@ =~= rv + bv);
            }
            i = i + 1;
        }
        r
    }
}

} // verus!
