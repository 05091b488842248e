//! Mouse capture: whether the terminal reports mouse events to the
//! application, or leaves the mouse to the terminal's own text selection
//! ("copy mode").
use vstd::prelude::*;
use crossterm::ExecutableCommand;

verus! {

/// An input/output error of the standard library.
#[verifier::external_type_specification]
#[verifier::external_body]
pub struct ExIoError(std::io::Error);

/// Whether mouse capture is enabled.
#[derive(Debug, Clone, Copy, PartialEq, Eq, Structural)]
pub struct MouseCaptureState {
    enabled: bool,
}

impl MouseCaptureState {
    /// Whether capture is enabled.
    pub closed spec fn enabled_view(&self) -> bool {
        self.enabled
    }

    /// A state with capture enabled or not.
    pub fn new(enabled: bool) -> (s: Self)
        ensures
            s.enabled_view() == enabled,
    {
        MouseCaptureState { enabled }
    }

    /// A state with capture enabled.
    pub fn enabled() -> (s: Self)
        ensures
            s.enabled_view(),
    {
        Self::new(true)
    }

    /// A state with capture disabled (copy mode).
    pub fn disabled() -> (s: Self)
        ensures
            !s.enabled_view(),
    {
        Self::new(false)
    }

    /// Whether capture is enabled.
    pub fn is_enabled(&self) -> (b: bool)
        ensures
            b == self.enabled_view(),
    {
        self.enabled
    }

    /// Whether copy mode is active (capture disabled).
    pub fn is_copy_mode(&self) -> (b: bool)
        ensures
            b == !self.enabled_view(),
    {
        !self.enabled
    }

    /// Sets whether capture is enabled.
    pub fn set_enabled(&mut self, enabled: bool)
        ensures
            final(self).enabled_view() == enabled,
    {
        self.enabled = enabled;
    }

    /// Flips the state and returns the new one.
    pub fn toggle(&mut self) -> (b: bool)
        ensures
            final(self).enabled_view() == !old(self).enabled_view(),
            b == final(self).enabled_view(),
    {
        self.enabled = !self.enabled;
        self.enabled
    }
}

impl Default for MouseCaptureState {
    fn default() -> (s: Self)
        ensures
            s.enabled_view(),
    {
        Self::enabled()
    }
}

/// A command that switches mouse capture on or off.
#[derive(Debug, Clone, Copy, PartialEq, Eq, Structural)]
pub enum CaptureCommand {
    Enable,
    Disable,
}

/// The command that takes capture from `current` to `wanted`: none when
/// they agree, else `Enable` or `Disable`.
pub open spec fn capture_change_spec(current: bool, wanted: bool) -> Option<CaptureCommand> {
    if current == wanted {
        None
    } else if wanted {
        Some(CaptureCommand::Enable)
    } else {
        Some(CaptureCommand::Disable)
    }
}

/// The command that takes capture from `current` to `wanted` (see
/// `capture_change_spec`).
pub fn capture_change(current: bool, wanted: bool) -> (c: Option<CaptureCommand>)
    ensures
        c == capture_change_spec(current, wanted),
{
    if current == wanted {
        None
    } else if wanted {
        Some(CaptureCommand::Enable)
    } else {
        Some(CaptureCommand::Disable)
    }
}

/// Writes `c`, as crossterm's command (`Enable` as `EnableMouseCapture`,
/// `Disable` as `DisableMouseCapture`), to `writer` and flushes it
/// (`ExecutableCommand::execute`). Whether the write succeeds depends on
/// the writer; nothing is claimed of the result.
#[verifier::external_body]
pub fn send_capture_command<W: std::io::Write>(writer: &mut W, c: CaptureCommand) -> (r: Result<(), std::io::Error>) {
    let r = match c {
        CaptureCommand::Enable => writer.execute(crossterm::event::EnableMouseCapture),
        CaptureCommand::Disable => writer.execute(crossterm::event::DisableMouseCapture),
    };
    match r {
        Ok(_) => Ok(()),
        Err(e) => Err(e),
    }
}

/// Sends the `Enable` command to the terminal.
pub fn enable_mouse_capture<W: std::io::Write>(writer: &mut W) -> (r: Result<(), std::io::Error>) {
    send_capture_command(writer, CaptureCommand::Enable)
}

/// Sends the `Disable` command to the terminal.
pub fn disable_mouse_capture<W: std::io::Write>(writer: &mut W) -> (r: Result<(), std::io::Error>) {
    send_capture_command(writer, CaptureCommand::Disable)
}

impl MouseCaptureState {
    /// Sets whether capture is enabled, and gives the command that takes
    /// the terminal there (see `capture_change`).
    pub fn change_to(&mut self, wanted: bool) -> (c: Option<CaptureCommand>)
        ensures
            final(self).enabled_view() == wanted,
            c == capture_change_spec(old(self).enabled_view(), wanted),
    {
        let c = capture_change(self.enabled, wanted);
        self.enabled = wanted;
        c
    }
}

/// Flips the capture state, then sends the command of that change
/// (`capture_change` from the old state to the new) to the terminal.
/// Returns the new state, or the write error (the state is flipped either
/// way).
pub fn toggle_mouse_capture<W: std::io::Write>(writer: &mut W, state: &mut MouseCaptureState) -> (r:
    Result<bool, std::io::Error>)
    ensures
        final(state).enabled_view() == !old(state).enabled_view(),
        r matches Ok(b) ==> b == final(state).enabled_view(),
{
    let was = state.is_enabled();
    let new_enabled = state.toggle();
    let res = match capture_change(was, new_enabled) {
        Some(c) => send_capture_command(writer, c),
        None => Ok(()),
    };
    match res {
        Ok(()) => Ok(new_enabled),
        Err(e) => Err(e),
    }
}

/// Sets the capture state; when it changes, sends the command of that
/// change (`capture_change`) to the terminal. Nothing is written when the
/// state is already `enabled`.
pub fn set_mouse_capture<W: std::io::Write>(
    writer: &mut W,
    state: &mut MouseCaptureState,
    enabled: bool,
) -> (r: Result<(), std::io::Error>)
    ensures
        final(state).enabled_view() == enabled,
        old(state).enabled_view() == enabled ==> r is Ok,
{
    match state.change_to(enabled) {
        Some(c) => send_capture_command(writer, c),
        None => Ok(()),
    }
}

} // verus!
