//! Keyboard and mouse events, as the components read them, and helpers
//! that classify them.
use vstd::prelude::*;

verus! {

/// A key on the keyboard.
#[derive(Debug, Clone, Copy, PartialEq, Eq, Structural, Hash)]
pub enum KeyCode {
    Backspace,
    Enter,
    Left,
    Right,
    Up,
    Down,
    Home,
    End,
    PageUp,
    PageDown,
    Tab,
    BackTab,
    Delete,
    Insert,
    F(u8),
    Char(char),
    Null,
    Esc,
    CapsLock,
    ScrollLock,
    NumLock,
    PrintScreen,
    Pause,
    Menu,
    KeypadBegin,
    /// A media key (play, pause, volume, ...).
    Media,
    /// A modifier key pressed on its own (Shift, Control, ...).
    Modifier,
}

/// A set of keyboard modifiers, one bit each.
#[derive(Debug, Clone, Copy, PartialEq, Eq, Structural, Hash, Default)]
pub struct KeyModifiers {
    pub bits: u8,
}

pub open spec fn has_bits(set: u8, bits: u8) -> bool {
    set & bits == bits
}

impl KeyModifiers {
    /// No modifier.
    pub fn none() -> (m: KeyModifiers)
        ensures
            m.bits == 0,
    {
        KeyModifiers { bits: 0 }
    }

    /// The Shift modifier.
    pub fn shift() -> (m: KeyModifiers)
        ensures
            m.bits == 1,
    {
        KeyModifiers { bits: 1 }
    }

    /// The Control modifier.
    pub fn control() -> (m: KeyModifiers)
        ensures
            m.bits == 2,
    {
        KeyModifiers { bits: 2 }
    }

    /// The Alt modifier.
    pub fn alt() -> (m: KeyModifiers)
        ensures
            m.bits == 4,
    {
        KeyModifiers { bits: 4 }
    }

    /// The Super modifier.
    pub fn super_key() -> (m: KeyModifiers)
        ensures
            m.bits == 8,
    {
        KeyModifiers { bits: 8 }
    }

    /// The Hyper modifier.
    pub fn hyper() -> (m: KeyModifiers)
        ensures
            m.bits == 16,
    {
        KeyModifiers { bits: 16 }
    }

    /// The Meta modifier.
    pub fn meta() -> (m: KeyModifiers)
        ensures
            m.bits == 32,
    {
        KeyModifiers { bits: 32 }
    }

    /// The modifiers set in either operand.
    pub fn union(self, other: KeyModifiers) -> (m: KeyModifiers)
        ensures
            m.bits == self.bits | other.bits,
    {
        KeyModifiers { bits: self.bits | other.bits }
    }

    /// Whether every modifier of `other` is set.
    pub fn contains(&self, other: KeyModifiers) -> (b: bool)
        ensures
            b == has_bits(self.bits, other.bits),
    {
        self.bits & other.bits == other.bits
    }

    /// Whether no modifier is set.
    pub fn is_empty(&self) -> (b: bool)
        ensures
            b == (self.bits == 0),
    {
        self.bits == 0
    }
}

/// Whether a key is pressed, repeated or released.
#[derive(Debug, Clone, Copy, PartialEq, Eq, Structural, Hash)]
pub enum KeyEventKind {
    Press,
    Repeat,
    Release,
}

/// A key event: the key, the modifiers held, and the kind of event.
#[derive(Debug, Clone, Copy, PartialEq, Eq, Structural, Hash)]
pub struct KeyEvent {
    pub code: KeyCode,
    pub modifiers: KeyModifiers,
    pub kind: KeyEventKind,
}

impl KeyEvent {
    /// A key press with the given modifiers.
    pub fn new(code: KeyCode, modifiers: KeyModifiers) -> (k: KeyEvent)
        ensures
            k == (KeyEvent { code, modifiers, kind: KeyEventKind::Press }),
    {
        KeyEvent { code, modifiers, kind: KeyEventKind::Press }
    }

    /// A key press with no modifier.
    pub fn from_code(code: KeyCode) -> (k: KeyEvent)
        ensures
            k == (KeyEvent { code, modifiers: KeyModifiers { bits: 0 }, kind: KeyEventKind::Press }),
    {
        KeyEvent { code, modifiers: KeyModifiers { bits: 0 }, kind: KeyEventKind::Press }
    }
}

impl From<KeyCode> for KeyEvent {
    fn from(code: KeyCode) -> (k: KeyEvent) {
        KeyEvent { code, modifiers: KeyModifiers { bits: 0 }, kind: KeyEventKind::Press }
    }
}

impl vstd::std_specs::convert::FromSpecImpl<KeyCode> for KeyEvent {
    open spec fn obeys_from_spec() -> bool {
        true
    }

    open spec fn from_spec(code: KeyCode) -> KeyEvent {
        KeyEvent { code, modifiers: KeyModifiers { bits: 0 }, kind: KeyEventKind::Press }
    }
}

/// A mouse button.
#[derive(Debug, Clone, Copy, PartialEq, Eq, Structural, Hash)]
pub enum MouseButton {
    Left,
    Right,
    Middle,
}

/// What the mouse did.
#[derive(Debug, Clone, Copy, PartialEq, Eq, Structural, Hash)]
pub enum MouseEventKind {
    Down(MouseButton),
    Up(MouseButton),
    Drag(MouseButton),
    Moved,
    ScrollDown,
    ScrollUp,
    ScrollLeft,
    ScrollRight,
}

/// A mouse event at a terminal cell.
#[derive(Debug, Clone, Copy, PartialEq, Eq, Structural, Hash)]
pub struct MouseEvent {
    pub kind: MouseEventKind,
    pub column: u16,
    pub row: u16,
    pub modifiers: KeyModifiers,
}

/// Whether the key activates a button or checkbox (Enter or Space).
pub fn is_activate_key(key: &KeyEvent) -> (b: bool)
    ensures
        b == (key.code == KeyCode::Enter || key.code == KeyCode::Char(' ')),
{
    matches!(key.code, KeyCode::Enter | KeyCode::Char(' '))
}

/// Whether the key navigates: Tab, BackTab or an arrow key.
pub fn is_navigation_key(key: &KeyEvent) -> (b: bool)
    ensures
        b == (key.code == KeyCode::Tab || key.code == KeyCode::BackTab || key.code == KeyCode::Up
            || key.code == KeyCode::Down || key.code == KeyCode::Left || key.code
            == KeyCode::Right),
{
    matches!(
        key.code,
        KeyCode::Tab | KeyCode::BackTab | KeyCode::Up | KeyCode::Down | KeyCode::Left
            | KeyCode::Right
    )
}

/// Tab without Shift (forward navigation).
pub fn is_tab(key: &KeyEvent) -> (b: bool)
    ensures
        b == (key.code == KeyCode::Tab && !has_bits(key.modifiers.bits, 1)),
{
    key.code == KeyCode::Tab && !key.modifiers.contains(KeyModifiers::shift())
}

/// BackTab, or Tab with Shift (backward navigation).
pub fn is_backtab(key: &KeyEvent) -> (b: bool)
    ensures
        b == (key.code == KeyCode::BackTab || (key.code == KeyCode::Tab && has_bits(
            key.modifiers.bits,
            1,
        ))),
{
    key.code == KeyCode::BackTab || (key.code == KeyCode::Tab && key.modifiers.contains(
        KeyModifiers::shift(),
    ))
}

/// The Escape key.
pub fn is_close_key(key: &KeyEvent) -> (b: bool)
    ensures
        b == (key.code == KeyCode::Esc),
{
    key.code == KeyCode::Esc
}

/// The Enter key.
pub fn is_enter(key: &KeyEvent) -> (b: bool)
    ensures
        b == (key.code == KeyCode::Enter),
{
    key.code == KeyCode::Enter
}

/// The Space key.
pub fn is_space(key: &KeyEvent) -> (b: bool)
    ensures
        b == (key.code == KeyCode::Char(' ')),
{
    key.code == KeyCode::Char(' ')
}

/// The Backspace key.
pub fn is_backspace(key: &KeyEvent) -> (b: bool)
    ensures
        b == (key.code == KeyCode::Backspace),
{
    key.code == KeyCode::Backspace
}

/// The Delete key.
pub fn is_delete(key: &KeyEvent) -> (b: bool)
    ensures
        b == (key.code == KeyCode::Delete),
{
    key.code == KeyCode::Delete
}

/// One of the four arrow keys.
pub fn is_arrow_key(key: &KeyEvent) -> (b: bool)
    ensures
        b == (key.code == KeyCode::Up || key.code == KeyCode::Down || key.code == KeyCode::Left
            || key.code == KeyCode::Right),
{
    matches!(key.code, KeyCode::Up | KeyCode::Down | KeyCode::Left | KeyCode::Right)
}

/// The Home key.
pub fn is_home(key: &KeyEvent) -> (b: bool)
    ensures
        b == (key.code == KeyCode::Home),
{
    key.code == KeyCode::Home
}

/// The End key.
pub fn is_end(key: &KeyEvent) -> (b: bool)
    ensures
        b == (key.code == KeyCode::End),
{
    key.code == KeyCode::End
}

/// The typed character, when the key is a character typed with no
/// modifier other than Shift.
pub fn get_char(key: &KeyEvent) -> (r: Option<char>)
    ensures
        r == (match key.code {
            KeyCode::Char(c) => if key.modifiers.bits == 0 || key.modifiers.bits == 1 {
                Some(c)
            } else {
                None
            },
            _ => None,
        }),
{
    match key.code {
        KeyCode::Char(c) => {
            if key.modifiers.is_empty() || key.modifiers == KeyModifiers::shift() {
                Some(c)
            } else {
                None
            }
        },
        _ => None,
    }
}

/// A press of the left mouse button.
pub fn is_left_click(mouse: &MouseEvent) -> (b: bool)
    ensures
        b == (mouse.kind == MouseEventKind::Down(MouseButton::Left)),
{
    matches!(mouse.kind, MouseEventKind::Down(MouseButton::Left))
}

/// A press of the right mouse button.
pub fn is_right_click(mouse: &MouseEvent) -> (b: bool)
    ensures
        b == (mouse.kind == MouseEventKind::Down(MouseButton::Right)),
{
    matches!(mouse.kind, MouseEventKind::Down(MouseButton::Right))
}

/// The direction of a vertical scroll: -1 up, 1 down.
pub fn get_scroll(mouse: &MouseEvent) -> (r: Option<i16>)
    ensures
        r == (match mouse.kind {
            MouseEventKind::ScrollUp => Some(-1i16),
            MouseEventKind::ScrollDown => Some(1i16),
            _ => None,
        }),
{
    match mouse.kind {
        MouseEventKind::ScrollUp => Some(-1),
        MouseEventKind::ScrollDown => Some(1),
        _ => None,
    }
}

/// The (column, row) of a mouse event.
pub fn get_mouse_pos(mouse: &MouseEvent) -> (r: (u16, u16))
    ensures
        r == (mouse.column, mouse.row),
{
    (mouse.column, mouse.row)
}

/// Whether Control is held.
pub fn has_ctrl(key: &KeyEvent) -> (b: bool)
    ensures
        b == has_bits(key.modifiers.bits, 2),
{
    key.modifiers.contains(KeyModifiers::control())
}

/// Whether Alt is held.
pub fn has_alt(key: &KeyEvent) -> (b: bool)
    ensures
        b == has_bits(key.modifiers.bits, 4),
{
    key.modifiers.contains(KeyModifiers::alt())
}

/// Whether Shift is held.
pub fn has_shift(key: &KeyEvent) -> (b: bool)
    ensures
        b == has_bits(key.modifiers.bits, 1),
{
    key.modifiers.contains(KeyModifiers::shift())
}

/// Control with the given character.
pub open spec fn is_ctrl_char(key: KeyEvent, c: char) -> bool {
    key.code == KeyCode::Char(c) && has_bits(key.modifiers.bits, 2)
}

/// Ctrl+A.
pub fn is_ctrl_a(key: &KeyEvent) -> (b: bool)
    ensures
        b == is_ctrl_char(*key, 'a'),
{
    key.code == KeyCode::Char('a') && has_ctrl(key)
}

/// Ctrl+E.
pub fn is_ctrl_e(key: &KeyEvent) -> (b: bool)
    ensures
        b == is_ctrl_char(*key, 'e'),
{
    key.code == KeyCode::Char('e') && has_ctrl(key)
}

/// Ctrl+U.
pub fn is_ctrl_u(key: &KeyEvent) -> (b: bool)
    ensures
        b == is_ctrl_char(*key, 'u'),
{
    key.code == KeyCode::Char('u') && has_ctrl(key)
}

/// Ctrl+K.
pub fn is_ctrl_k(key: &KeyEvent) -> (b: bool)
    ensures
        b == is_ctrl_char(*key, 'k'),
{
    key.code == KeyCode::Char('k') && has_ctrl(key)
}

/// Ctrl+W.
pub fn is_ctrl_w(key: &KeyEvent) -> (b: bool)
    ensures
        b == is_ctrl_char(*key, 'w'),
{
    key.code == KeyCode::Char('w') && has_ctrl(key)
}

} // verus!
