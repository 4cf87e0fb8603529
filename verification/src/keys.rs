//! Keyboard and mouse events, and screen rectangles, as the client sees them.

use vstd::prelude::*;

verus! {

/// A key on the keyboard.
#[derive(Debug, Clone, Copy, PartialEq, Eq, Structural)]
pub enum KeyCode {
    Char(char),
    Esc,
    Enter,
    Tab,
    Backspace,
    Delete,
    Up,
    Down,
    Left,
    Right,
    PageUp,
    PageDown,
    Home,
    End,
    /// Any other key (function keys, media keys, ...).
    Other,
}

/// Modifier keys held during a key press.
#[allow(non_camel_case_types)]
#[derive(Debug, Clone, Copy, PartialEq, Eq, Structural)]
pub enum KeyModifiers {
    /// No modifier.
    NONE,
    /// Shift alone.
    SHIFT,
    /// Control alone.
    CONTROL,
    /// Alt alone.
    ALT,
    /// Any other combination of modifiers.
    COMBINED,
}

/// A key press.
#[derive(Debug, Clone, Copy, PartialEq, Eq, Structural)]
pub struct KeyEvent {
    pub code: KeyCode,
    pub modifiers: KeyModifiers,
}

impl KeyEvent {
    /// A key press of `code` with `modifiers` held.
    pub fn new(code: KeyCode, modifiers: KeyModifiers) -> (k: KeyEvent)
        ensures
            k.code == code,
            k.modifiers == modifiers,
    {
        KeyEvent { code, modifiers }
    }
}

/// The key press is Ctrl+C (Control alone held with `c`).
pub open spec fn is_ctrl_c(key: KeyEvent) -> bool {
    key.modifiers == KeyModifiers::CONTROL && key.code == KeyCode::Char('c')
}

/// Whether `key` is Ctrl+C.
pub fn key_is_ctrl_c(key: KeyEvent) -> (r: bool)
    ensures
        r == is_ctrl_c(key),
{
    (match key.modifiers {
        KeyModifiers::CONTROL => true,
        _ => false,
    }) && match key.code {
        KeyCode::Char(c) => c == 'c',
        _ => false,
    }
}

/// A mouse button.
#[derive(Debug, Clone, Copy, PartialEq, Eq, Structural)]
pub enum MouseButton {
    Left,
    Right,
    Middle,
}

/// What the mouse did.
#[derive(Debug, Clone, Copy, PartialEq, Eq, Structural)]
pub enum MouseEventKind {
    Down(MouseButton),
    Up(MouseButton),
    Drag(MouseButton),
    Moved,
    ScrollDown,
    ScrollUp,
    ScrollLeft,
    ScrollRight,
}

/// A mouse event at a terminal cell.
#[derive(Debug, Clone, Copy, PartialEq, Eq, Structural)]
pub struct MouseEvent {
    pub kind: MouseEventKind,
    pub column: u16,
    pub row: u16,
    pub modifiers: KeyModifiers,
}

/// A rectangle of terminal cells.
#[derive(Debug, Clone, Copy, PartialEq, Eq, Structural)]
pub struct Rect {
    pub x: u16,
    pub y: u16,
    pub width: u16,
    pub height: u16,
}

/// The cell `(col, row)` lies inside `r` (`Rect::contains`).
pub open spec fn rect_contains(r: Rect, col: u16, row: u16) -> bool {
    r.x <= col && (col as int) < r.x + r.width && r.y <= row && (row as int) < r.y + r.height
}

impl Rect {
    /// A rectangle at `(x, y)` of the given size.
    pub fn new(x: u16, y: u16, width: u16, height: u16) -> (r: Rect)
        ensures
            r == (Rect { x, y, width, height }),
    {
        Rect { x, y, width, height }
    }

    /// Whether the cell `(col, row)` lies inside the rectangle.
    pub fn contains(&self, col: u16, row: u16) -> (b: bool)
        ensures
            b == rect_contains(*self, col, row),
    {
        let right: u32 = self.x as u32 + self.width as u32;
        let bottom: u32 = self.y as u32 + self.height as u32;
        self.x <= col && (col as u32) < right && self.y <= row && (row as u32) < bottom
    }
}

} // verus!
