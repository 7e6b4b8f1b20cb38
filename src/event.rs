//! The backend-agnostic event model.
use vstd::prelude::*;

verus! {

/// A position on the window surface, in pixels.
#[derive(Clone, Copy, Debug, PartialEq, Eq, Structural)]
pub struct Point {
    pub x: i32,
    pub y: i32,
}

impl Point {
    /// The origin of the window surface.
    pub fn origin() -> (r: Point)
        ensures
            r.x == 0 && r.y == 0,
    {
        Point { x: 0, y: 0 }
    }
}

/// The mouse buttons that the toolkit distinguishes.
#[derive(Clone, Copy, Debug, PartialEq, Eq, Structural)]
pub enum MouseButton {
    Left,
    Middle,
    Right,
}

/// A key: one of the named keys, or the printable character that was typed.
#[derive(Clone, Copy, Debug, PartialEq, Eq, Structural)]
pub enum Key {
    Backspace,
    Up,
    Down,
    Left,
    Right,
    Enter,
    Character(char),
}

/// A typed, backend-agnostic UI event.
#[derive(Clone, Copy, Debug, PartialEq, Eq, Structural)]
pub enum DomainEvent {
    MouseDown { button: MouseButton, position: Point },
    MouseUp { button: MouseButton, position: Point },
    MouseMove { position: Point },
    KeyDown { key: Key },
    KeyUp { key: Key },
    WindowResize { width: u32, height: u32 },
    Quit,
}

} // verus!
