//! Toast: a transient notification with an expiry time, its style guessed
//! from the message, and the area it takes.
use vstd::prelude::*;
use vstd::string::*;
use crate::geometry::{block_inner, bordered_inner, sat_sub16, Rect};
use crate::style::{fg, fg_style, Color, Style};
use crate::text::{contains_spec, lowercase, str_contains, string_from_str, to_lowercase};

verus! {

/// The kind of a toast, which sets its border color.
#[derive(Debug, Clone, Copy, PartialEq, Eq, Structural, Default)]
pub enum ToastStyle {
    #[default]
    Info,
    Success,
    Warning,
    Error,
}

/// The style a message suggests, from words in its lower-cased text:
/// "error" or "fail", then "warning" or "warn", then "success", "saved" or
/// "done".
pub open spec fn style_of_message(m: Seq<char>) -> ToastStyle {
    let l = lowercase(m);
    if contains_spec(l, "error"@) || contains_spec(l, "fail"@) {
        ToastStyle::Error
    } else if contains_spec(l, "warning"@) || contains_spec(l, "warn"@) {
        ToastStyle::Warning
    } else if contains_spec(l, "success"@) || contains_spec(l, "saved"@) || contains_spec(l, "done"@) {
        ToastStyle::Success
    } else {
        ToastStyle::Info
    }
}

/// The border color of a kind of toast.
pub open spec fn toast_color(s: ToastStyle) -> Color {
    match s {
        ToastStyle::Info => Color::Cyan,
        ToastStyle::Success => Color::Green,
        ToastStyle::Warning => Color::Yellow,
        ToastStyle::Error => Color::Red,
    }
}

impl ToastStyle {
    /// The border color: cyan, green, yellow or red.
    pub fn border_color(&self) -> (c: Color)
        ensures
            c == toast_color(*self),
    {
        match self {
            ToastStyle::Info => Color::Cyan,
            ToastStyle::Success => Color::Green,
            ToastStyle::Warning => Color::Yellow,
            ToastStyle::Error => Color::Red,
        }
    }

    /// The style the message suggests (see `style_of_message`).
    pub fn from_message(message: &str) -> (s: Self)
        ensures
            s == style_of_message(message@),
    {
        let lower = to_lowercase(message);
        let l = lower.as_str();
        if str_contains(l, "error") || str_contains(l, "fail") {
            ToastStyle::Error
        } else if str_contains(l, "warning") || str_contains(l, "warn") {
            ToastStyle::Warning
        } else if str_contains(l, "success") || str_contains(l, "saved") || str_contains(l, "done") {
            ToastStyle::Success
        } else {
            ToastStyle::Info
        }
    }
}

/// Reads the system clock, in milliseconds since the Unix epoch (0 for a
/// clock before it), as `std::time::SystemTime::now` and `duration_since`
/// give it. Nothing is claimed of the value: it is the time.
#[verifier::external_body]
pub(crate) fn current_time_ms() -> (t: i64) {
    match std::time::SystemTime::now().duration_since(std::time::UNIX_EPOCH) {
        Ok(d) => d.as_millis() as i64,
        Err(_) => 0,
    }
}

/// `after` is `before` once expired toasts are removed at time `now`: no
/// message and no expiry where the expiry is at or before `now`, else
/// unchanged.
pub open spec fn expired_after(before: ToastState, after: ToastState, now: i64) -> bool {
    if before.expiry() matches Some(e) && now >= e {
        after.message_view() is None && after.expiry() is None
    } else {
        after.message_view() == before.message_view() && after.expiry() == before.expiry()
    }
}

/// A single toast: a message and when it expires.
#[derive(Debug, Clone)]
pub struct ToastState {
    message: Option<String>,
    expires_at: Option<i64>,
}

impl ToastState {
    /// The message, if any.
    pub closed spec fn message_view(&self) -> Option<Seq<char>> {
        match self.message {
            Some(m) => Some(m@),
            None => None,
        }
    }

    /// The expiry time, in milliseconds, if any.
    pub closed spec fn expiry(&self) -> Option<i64> {
        self.expires_at
    }

    /// The message shown at time `now`: the message, when there is an
    /// expiry still ahead.
    pub open spec fn shown_at(&self, now: i64) -> Option<Seq<char>> {
        match (self.message_view(), self.expiry()) {
            (Some(m), Some(e)) => if now < e { Some(m) } else { None },
            _ => None,
        }
    }

    /// No message.
    pub fn new() -> (s: Self)
        ensures
            s.message_view() is None,
            s.expiry() is None,
    {
        ToastState { message: None, expires_at: None }
    }

    /// Shows `message` from time `now` for `duration_ms` milliseconds (the
    /// sum wraps around on overflow, as a release build computes it).
    pub fn show_at(&mut self, message: &str, now: i64, duration_ms: i64)
        ensures
            final(self).message_view() == Some(message@),
            final(self).expiry() == Some(now.wrapping_add(duration_ms)),
    {
        self.message = Some(string_from_str(message));
        self.expires_at = Some(now.wrapping_add(duration_ms));
    }

    /// Shows `message` for `duration_ms` milliseconds from now.
    pub fn show(&mut self, message: &str, duration_ms: i64)
        ensures
            final(self).message_view() == Some(message@),
            final(self).expiry() is Some,
    {
        let now = current_time_ms();
        self.show_at(message, now, duration_ms);
    }

    /// The message shown at time `now` (see `shown_at`).
    pub fn message_at(&self, now: i64) -> (r: Option<&str>)
        ensures
            match self.shown_at(now) {
                Some(m) => r matches Some(x) && x@ == m,
                None => r is None,
            },
    {
        match (&self.message, self.expires_at) {
            (Some(m), Some(e)) => if now < e {
                Some(m.as_str())
            } else {
                None
            },
            _ => None,
        }
    }

    /// The message shown now: what `message_at` gives for the time the
    /// clock reads.
    pub fn get_message(&self) -> (r: Option<&str>)
        ensures
            exists|now: i64| #[trigger] self.shown_at(now) == (match r {
                Some(x) => Some(x@),
                None => None::<Seq<char>>,
            }),
    {
        let now = current_time_ms();
        let r = self.message_at(now);
        assert(self.shown_at(now) == (match r {
            Some(x) => Some(x@),
            None => None::<Seq<char>>,
        }));
        r
    }

    /// Whether a message is shown now: whether `message_at` gives one for
    /// the time the clock reads.
    pub fn is_visible(&self) -> (b: bool)
        ensures
            exists|now: i64| b == (#[trigger] self.shown_at(now) is Some),
    {
        let now = current_time_ms();
        let b = self.message_at(now).is_some();
        assert(b == (self.shown_at(now) is Some));
        b
    }

    /// Removes the toast when it has expired at time `now`.
    pub fn clear_if_expired_at(&mut self, now: i64)
        ensures
            (old(self).expiry() matches Some(e) && now >= e) ==> final(self).message_view() is None && final(self).expiry() is None,
            !(old(self).expiry() matches Some(e) && now >= e) ==> final(self).message_view() == old(self).message_view()
                && final(self).expiry() == old(self).expiry(),
    {
        if let Some(e) = self.expires_at {
            if now >= e {
                self.message = None;
                self.expires_at = None;
            }
        }
    }

    /// Removes the toast when it has expired: what `clear_if_expired_at`
    /// does at the time the clock reads.
    pub fn clear_if_expired(&mut self)
        ensures
            exists|now: i64| #[trigger] expired_after(*old(self), *final(self), now),
    {
        let now = current_time_ms();
        self.clear_if_expired_at(now);
        assert(expired_after(*old(self), *self, now));
    }

    /// Removes the toast.
    pub fn clear(&mut self)
        ensures
            final(self).message_view() is None,
            final(self).expiry() is None,
    {
        self.message = None;
        self.expires_at = None;
    }
}

impl Default for ToastState {
    fn default() -> (s: Self)
        ensures
            s.message_view() is None,
            s.expiry() is None,
    {
        Self::new()
    }
}

/// The toast widget: a message, its kind (guessed from the message unless
/// set), and its size limits.
#[derive(Debug, Clone, Copy)]
pub struct Toast<'a> {
    pub message: &'a str,
    pub style: ToastStyle,
    /// Guess the kind from the message.
    pub auto_style: bool,
    pub max_width: u16,
    pub max_height: u16,
    /// Rows between the top of the area and the toast.
    pub top_offset: u16,
}

/// The size of a toast for a message of `len` bytes in an area `aw` wide:
/// the message and 4 cells of padding, at most 8 cells less than the area
/// and `max_width`, at least 20; as many rows as the message wraps into,
/// plus the borders, at most `max_height`.
pub open spec fn toast_size(len: int, aw: u16, max_width: u16, max_height: u16) -> (u16, u16) {
    let mcw = if aw >= 8 { if aw - 8 < max_width { aw - 8 } else { max_width as int } } else { 0 };
    let cw = len + 4;
    let w0 = if cw < mcw { cw } else { mcw };
    let tw = (if w0 >= 20 { w0 } else { 20 }) as u16;
    let iw = sat_sub16(tw, 2) as int;
    let lines = (len + iw - 1) / (if iw >= 1 { iw } else { 1 });
    let h0 = (lines as u16) + 2;
    let th = if h0 < max_height { h0 } else { max_height as int };
    (tw, th as u16)
}

/// The size computation stays in range for a message of `len` bytes.
pub open spec fn toast_size_ok(len: int, aw: u16, max_width: u16) -> bool {
    let mcw = if aw >= 8 { if aw - 8 < max_width { aw - 8 } else { max_width as int } } else { 0 };
    let cw = len + 4;
    let w0 = if cw < mcw { cw } else { mcw };
    let tw = (if w0 >= 20 { w0 } else { 20 }) as u16;
    let iw = sat_sub16(tw, 2) as int;
    let lines = (len + iw - 1) / (if iw >= 1 { iw } else { 1 });
    &&& len + 4 <= usize::MAX
    &&& len + iw <= usize::MAX
    &&& len + iw >= 1
    &&& (lines as u16) + 2 <= u16::MAX
}

/// Whether the size of a toast for a message of `len` bytes can be
/// computed (see `toast_size_ok`).
pub fn toast_size_fits(len: usize, area_width: u16, max_width: u16) -> (b: bool)
    ensures
        b == toast_size_ok(len as int, area_width, max_width),
{
    if len > usize::MAX - 4 {
        return false;
    }
    let aw = area_width as usize;
    let mw = max_width as usize;
    let mcw0 = aw.saturating_sub(8);
    let mcw = if mcw0 < mw { mcw0 } else { mw };
    let cw = len + 4;
    let w0 = if cw < mcw { cw } else { mcw };
    let tw = (if w0 >= 20 { w0 } else { 20 }) as u16;
    let iw = tw.saturating_sub(2) as usize;
    if len > usize::MAX - iw || len + iw < 1 {
        return false;
    }
    let div = if iw >= 1 { iw } else { 1 };
    let lines = (len + iw - 1) / div;
    (lines as u16) <= u16::MAX - 2
}

/// The size of a toast (see `toast_size`).
pub fn toast_dimensions(len: usize, area_width: u16, max_width: u16, max_height: u16) -> (r: (u16, u16))
    requires
        toast_size_ok(len as int, area_width, max_width),
    ensures
        r == toast_size(len as int, area_width, max_width, max_height),
{
    let aw = area_width as usize;
    let mw = max_width as usize;
    let mcw0 = aw.saturating_sub(8);
    let mcw = if mcw0 < mw { mcw0 } else { mw };
    let cw = len + 4;
    let w0 = if cw < mcw { cw } else { mcw };
    let tw = (if w0 >= 20 { w0 } else { 20 }) as u16;
    let iw = tw.saturating_sub(2) as usize;
    let div = if iw >= 1 { iw } else { 1 };
    let lines = (len + iw - 1) / div;
    let h0 = (lines as u16) + 2;
    let th = if h0 < max_height { h0 } else { max_height };
    (tw, th)
}

impl<'a> Toast<'a> {
    /// A toast of `message`, its kind guessed, at most 80 by 8, 3 rows from
    /// the top.
    pub fn new(message: &'a str) -> (t: Self)
        ensures
            t == (Toast { message, style: ToastStyle::Info, auto_style: true, max_width: 80, max_height: 8, top_offset: 3 }),
    {
        Toast { message, style: ToastStyle::Info, auto_style: true, max_width: 80, max_height: 8, top_offset: 3 }
    }

    /// Sets the kind, which stops the guessing.
    pub fn style(self, style: ToastStyle) -> (t: Self)
        ensures
            t == (Toast { style, auto_style: false, ..self }),
    {
        Toast { style, auto_style: false, ..self }
    }

    /// Guesses the kind from the message.
    pub fn auto_style(self) -> (t: Self)
        ensures
            t == (Toast { auto_style: true, ..self }),
    {
        Toast { auto_style: true, ..self }
    }

    /// Sets the widest a toast gets.
    pub fn max_width(self, width: u16) -> (t: Self)
        ensures
            t == (Toast { max_width: width, ..self }),
    {
        Toast { max_width: width, ..self }
    }

    /// Sets the highest a toast gets.
    pub fn max_height(self, height: u16) -> (t: Self)
        ensures
            t == (Toast { max_height: height, ..self }),
    {
        Toast { max_height: height, ..self }
    }

    /// Sets the rows above the toast.
    pub fn top_offset(self, offset: u16) -> (t: Self)
        ensures
            t == (Toast { top_offset: offset, ..self }),
    {
        Toast { top_offset: offset, ..self }
    }

    /// The toast's area in `area`: sized for the message (see
    /// `toast_size`), centered, `top_offset` rows down (less where the area
    /// is too short).
    pub fn calculate_area(&self, area: Rect) -> (r: Rect)
        requires
            area.fits(),
            toast_size_ok(self.message.spec_bytes().len() as int, area.width, self.max_width),
        ensures
            ({
                let (tw, th) = toast_size(self.message.spec_bytes().len() as int, area.width, self.max_width, self.max_height);
                let x = area.x + sat_sub16(area.width, tw) / 2;
                let room = sat_sub16(area.height, th);
                let y = area.y + if self.top_offset < room { self.top_offset as int } else { room as int };
                r == Rect::new_spec(x as u16, y as u16, tw, th)
            }),
    {
        let len = self.message.as_bytes().len();
        let (tw, th) = toast_dimensions(len, area.width, self.max_width, self.max_height);
        let x = area.x + area.width.saturating_sub(tw) / 2;
        let room = area.height.saturating_sub(th);
        let y = area.y + if self.top_offset < room { self.top_offset } else { room };
        Rect::new(x, y, tw, th)
    }

    /// The border color: from the guessed kind, or the kind set.
    pub fn border_color(&self) -> (c: Color)
        ensures
            c == toast_color(if self.auto_style { style_of_message(self.message@) } else { self.style }),
    {
        if self.auto_style {
            ToastStyle::from_message(self.message).border_color()
        } else {
            self.style.border_color()
        }
    }

    /// Where the message goes in the toast's `area`: inside the border.
    pub fn text_area(&self, area: Rect) -> (r: Rect)
        ensures
            r == bordered_inner(area),
    {
        block_inner(area)
    }
}

/// A toast lasts exactly its duration: shown at `now` for `d > 0`
/// milliseconds, it is visible at every time from `now` until just before
/// `now + d`, and at none from then on.
pub proof fn shown_for_its_duration(s: ToastState, m: Seq<char>, now: i64, d: i64, t: i64)
    requires
        s.message_view() == Some(m),
        s.expiry() == Some(now.wrapping_add(d)),
        0 < d,
        now + d <= i64::MAX,
    ensures
        now <= t < now + d ==> s.shown_at(t) == Some(m),
        t >= now + d ==> s.shown_at(t) is None,
{
    assert(now.wrapping_add(d) == now + d);
}

} // verus!
