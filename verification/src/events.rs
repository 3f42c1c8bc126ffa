//! Terminal input events as plain values, and what a key or mouse event is.
use vstd::prelude::*;
use crate::strs::{owned, push_str};

verus! {

/// The key of a key event.
#[derive(Debug, Clone, Copy, PartialEq, Eq, Structural)]
pub enum KeyKind {
    Char(char),
    F(u8),
    Esc,
    Up,
    Down,
    Left,
    Right,
    Backspace,
    Enter,
    Home,
    End,
    PageUp,
    PageDown,
    Tab,
    BackTab,
    Delete,
    Insert,
    /// Any other key.
    Other,
}

/// The modifier bit of Shift.
pub const SHIFT: u8 = 0b0000_0001;
/// The modifier bit of Control.
pub const CONTROL: u8 = 0b0000_0010;
/// The modifier bit of Alt.
pub const ALT: u8 = 0b0000_0100;

/// A key press: the key, the modifier bits held, and the character typed, if any.
#[derive(Debug, Clone, Copy, PartialEq, Eq, Structural)]
pub struct KeyData {
    /// The key that was pressed
    pub code: KeyKind,
    /// The modifier keys held during the press, as bits
    pub modifiers: u8,
    /// The character represented, if applicable
    pub char: Option<char>,
    /// Whether this is a key release event
    pub is_release: bool,
}

impl KeyData {
    /// A press of `code` with `modifiers` held; a character key carries its character.
    pub fn new(code: KeyKind, modifiers: u8) -> (r: Self)
        ensures
            r.code == code,
            r.modifiers == modifiers,
            r.char == match code {
                KeyKind::Char(c) => Some(c),
                _ => None::<char>,
            },
            !r.is_release,
    {
        let char = match code {
            KeyKind::Char(c) => Some(c),
            _ => None,
        };
        KeyData { code, modifiers, char, is_release: false }
    }

    /// Whether Control was held.
    pub fn is_control(&self) -> (r: bool)
        ensures
            r == (self.modifiers & CONTROL == CONTROL),
    {
        self.modifiers & CONTROL == CONTROL
    }

    /// Whether Alt was held.
    pub fn is_alt(&self) -> (r: bool)
        ensures
            r == (self.modifiers & ALT == ALT),
    {
        self.modifiers & ALT == ALT
    }

    /// Whether Shift was held.
    pub fn is_shift(&self) -> (r: bool)
        ensures
            r == (self.modifiers & SHIFT == SHIFT),
    {
        self.modifiers & SHIFT == SHIFT
    }

    /// Whether the key is Escape.
    pub fn is_escape(&self) -> (r: bool)
        ensures
            r == (self.code == KeyKind::Esc),
    {
        matches!(self.code, KeyKind::Esc)
    }

    /// Whether the key is one of F1 to F12.
    pub fn is_function_key(&self) -> (r: bool)
        ensures
            r == (self.code matches KeyKind::F(n) && 1 <= n <= 12),
    {
        match self.code {
            KeyKind::F(n) => 1 <= n && n <= 12,
            _ => false,
        }
    }

    /// Whether the key is an arrow key.
    pub fn is_arrow_key(&self) -> (r: bool)
        ensures
            r == (self.code == KeyKind::Up || self.code == KeyKind::Down || self.code == KeyKind::Left
                || self.code == KeyKind::Right),
    {
        matches!(self.code, KeyKind::Up | KeyKind::Down | KeyKind::Left | KeyKind::Right)
    }

    /// Whether the key is an editing or navigation key.
    pub fn is_special_key(&self) -> (r: bool)
        ensures
            r == (self.code == KeyKind::Backspace || self.code == KeyKind::Enter || self.code == KeyKind::Home
                || self.code == KeyKind::End || self.code == KeyKind::PageUp || self.code == KeyKind::PageDown
                || self.code == KeyKind::Tab || self.code == KeyKind::BackTab || self.code == KeyKind::Delete
                || self.code == KeyKind::Insert),
    {
        matches!(
            self.code,
            KeyKind::Backspace | KeyKind::Enter | KeyKind::Home | KeyKind::End | KeyKind::PageUp
                | KeyKind::PageDown | KeyKind::Tab | KeyKind::BackTab | KeyKind::Delete | KeyKind::Insert
        )
    }
}

/// The kind of a mouse event.
#[derive(Debug, Clone, Copy, PartialEq, Eq, Structural)]
pub enum MouseKind {
    Down,
    Up,
    Drag,
    Moved,
    ScrollDown,
    ScrollUp,
    ScrollLeft,
    ScrollRight,
}

/// A mouse event: its kind, where it happened, and the modifier bits held.
#[derive(Debug, Clone, Copy, PartialEq, Eq, Structural)]
pub struct MouseData {
    /// Type of mouse event
    pub kind: MouseKind,
    /// Column position (x-coordinate)
    pub column: u16,
    /// Row position (y-coordinate)
    pub row: u16,
    /// The modifier keys held, as bits
    pub modifiers: u8,
}

impl MouseData {
    /// Whether a button was pressed.
    pub fn is_press(&self) -> (r: bool)
        ensures
            r == (self.kind == MouseKind::Down),
    {
        matches!(self.kind, MouseKind::Down)
    }

    /// Whether a button was released.
    pub fn is_release(&self) -> (r: bool)
        ensures
            r == (self.kind == MouseKind::Up),
    {
        matches!(self.kind, MouseKind::Up)
    }

    /// Whether the mouse was dragged.
    pub fn is_drag(&self) -> (r: bool)
        ensures
            r == (self.kind == MouseKind::Drag),
    {
        matches!(self.kind, MouseKind::Drag)
    }

    /// Whether the wheel scrolled up or down.
    pub fn is_scroll(&self) -> (r: bool)
        ensures
            r == (self.kind == MouseKind::ScrollDown || self.kind == MouseKind::ScrollUp),
    {
        matches!(self.kind, MouseKind::ScrollDown | MouseKind::ScrollUp)
    }
}

/// Whether a terminal size change is reported: only when the size differs.
pub fn size_changed(old: (u16, u16), new: (u16, u16)) -> (r: bool)
    ensures
        r == (old.0 != new.0 || old.1 != new.1),
{
    old.0 != new.0 || old.1 != new.1
}

/// A terminal event as the library handles it.
#[derive(Debug, Clone, PartialEq, Eq)]
pub enum TerminalEvent {
    /// Terminal window has been resized
    Resize {
        /// New width in columns
        width: u16,
        /// New height in rows
        height: u16,
    },
    /// A key has been pressed
    KeyPress(KeyData),
    /// A mouse event has occurred
    MouseEvent(MouseData),
    /// Terminal has lost focus
    FocusLost,
    /// Terminal has gained focus
    FocusGained,
    /// A control code or special sequence was received
    ControlCode(String),
}

/// An event as the terminal reports it.
#[derive(Debug, Clone, PartialEq, Eq)]
pub enum InputEvent {
    /// The terminal took a new size
    Resize(u16, u16),
    /// A key was pressed
    Key(KeyData),
    /// The mouse was used
    Mouse(MouseData),
    /// The terminal gained focus
    FocusGained,
    /// The terminal lost focus
    FocusLost,
    /// Text was pasted
    Paste(String),
}

/// The terminal event for `event`, if it is passed on: mouse events only when
/// they are enabled, and pasted text as the control code `PASTE:` and the text.
pub fn convert_event(event: InputEvent, mouse_events_enabled: bool) -> (r: Option<TerminalEvent>)
    ensures
        match event {
            InputEvent::Resize(width, height) => r == Some(TerminalEvent::Resize { width, height }),
            InputEvent::Key(k) => r == Some(TerminalEvent::KeyPress(k)),
            InputEvent::Mouse(m) => r == if mouse_events_enabled {
                Some(TerminalEvent::MouseEvent(m))
            } else {
                None
            },
            InputEvent::FocusGained => r == Some(TerminalEvent::FocusGained),
            InputEvent::FocusLost => r == Some(TerminalEvent::FocusLost),
            InputEvent::Paste(text) => r matches Some(TerminalEvent::ControlCode(c)) && c@ == "PASTE:"@ + text@,
        },
{
    match event {
        InputEvent::Resize(width, height) => Some(TerminalEvent::Resize { width, height }),
        InputEvent::Key(k) => Some(TerminalEvent::KeyPress(k)),
        InputEvent::Mouse(m) => if mouse_events_enabled {
            Some(TerminalEvent::MouseEvent(m))
        } else {
            None
        },
        InputEvent::FocusGained => Some(TerminalEvent::FocusGained),
        InputEvent::FocusLost => Some(TerminalEvent::FocusLost),
        InputEvent::Paste(text) => {
            let mut c = owned("PASTE:");
            push_str(&mut c, text.as_str());
            Some(TerminalEvent::ControlCode(c))
        },
    }
}

} // verus!
