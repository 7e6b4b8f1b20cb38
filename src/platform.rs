//! Raw platform events and their translation into domain events.
use vstd::prelude::*;

use crate::event::{DomainEvent, Key, MouseButton, Point};

verus! {

/// Scancode of the backspace key on the platform keyboard.
pub const SCANCODE_BACKSPACE: u8 = 0x0E;

/// Scancode of the up-arrow key.
pub const SCANCODE_UP: u8 = 0x48;

/// Scancode of the left-arrow key.
pub const SCANCODE_LEFT: u8 = 0x4B;

/// Scancode of the right-arrow key.
pub const SCANCODE_RIGHT: u8 = 0x4D;

/// Scancode of the down-arrow key.
pub const SCANCODE_DOWN: u8 = 0x50;

/// One event as the platform window reports it.
#[derive(Clone, Copy, Debug, PartialEq, Eq, Structural)]
pub enum PlatformEvent {
    /// The pointer moved to an absolute position.
    Mouse { x: i32, y: i32 },
    /// The set of pressed mouse buttons changed.
    Button { left: bool, middle: bool, right: bool },
    /// A key was pressed or released.
    Key { character: char, scancode: u8, pressed: bool },
    /// The user asked to close the window.
    Quit,
    /// The window was resized.
    Resize { width: u32, height: u32 },
    /// Any other kind of platform event.
    Other,
}

/// The pressed state of the three mouse buttons.
#[derive(Clone, Copy, Debug, PartialEq, Eq, Structural)]
pub struct ButtonState {
    pub left: bool,
    pub middle: bool,
    pub right: bool,
}

/// What the translation remembers between platform events.
#[derive(Clone, Copy, Debug, PartialEq, Eq, Structural)]
pub struct InputState {
    pub buttons: ButtonState,
    pub position: Point,
}

/// The button a tri-state names: left over middle over right.
pub open spec fn chosen_button(left: bool, middle: bool) -> MouseButton {
    if left {
        MouseButton::Left
    } else if middle {
        MouseButton::Middle
    } else {
        MouseButton::Right
    }
}

/// The key a platform key event denotes: named scancodes first, then the
/// character, where a newline is Enter.
pub open spec fn key_of(scancode: u8, character: char) -> Key {
    if scancode == SCANCODE_BACKSPACE {
        Key::Backspace
    } else if scancode == SCANCODE_UP {
        Key::Up
    } else if scancode == SCANCODE_DOWN {
        Key::Down
    } else if scancode == SCANCODE_LEFT {
        Key::Left
    } else if scancode == SCANCODE_RIGHT {
        Key::Right
    } else if character == '\n' {
        Key::Enter
    } else {
        Key::Character(character)
    }
}

/// The domain event that platform event `e` yields in state `s`, if any.
///
/// A release of all buttons names the button from the state before it. A key
/// that the platform reports pressed yields `KeyUp`, one reported released
/// yields `KeyDown`: this keeps the toolkit's established mapping. A pointer
/// move only updates the position and yields nothing.
pub open spec fn translate(s: InputState, e: PlatformEvent) -> Option<DomainEvent> {
    match e {
        PlatformEvent::Mouse { .. } => None,
        PlatformEvent::Button { left, middle, right } => {
            if !left && !middle && !right {
                Some(
                    DomainEvent::MouseUp {
                        button: chosen_button(s.buttons.left, s.buttons.middle),
                        position: s.position,
                    },
                )
            } else {
                Some(
                    DomainEvent::MouseDown {
                        button: chosen_button(left, middle),
                        position: s.position,
                    },
                )
            }
        },
        PlatformEvent::Key { character, scancode, pressed } => {
            if pressed {
                Some(DomainEvent::KeyUp { key: key_of(scancode, character) })
            } else {
                Some(DomainEvent::KeyDown { key: key_of(scancode, character) })
            }
        },
        PlatformEvent::Quit => Some(DomainEvent::Quit),
        PlatformEvent::Resize { width, height } => Some(DomainEvent::WindowResize { width, height }),
        PlatformEvent::Other => None,
    }
}

/// The state after platform event `e` in state `s`.
pub open spec fn advance(s: InputState, e: PlatformEvent) -> InputState {
    match e {
        PlatformEvent::Mouse { x, y } => InputState { position: Point { x, y }, ..s },
        PlatformEvent::Button { left, middle, right } => InputState {
            buttons: ButtonState { left, middle, right },
            ..s
        },
        _ => s,
    }
}

/// The state after a whole sequence of platform events.
pub open spec fn advance_all(s: InputState, es: Seq<PlatformEvent>) -> InputState
    decreases es.len(),
{
    if es.len() == 0 {
        s
    } else {
        advance(advance_all(s, es.drop_last()), es.last())
    }
}

/// The optional event as a sequence of zero or one events.
pub open spec fn as_seq(o: Option<DomainEvent>) -> Seq<DomainEvent> {
    match o {
        Some(d) => seq![d],
        None => Seq::empty(),
    }
}

/// The domain events, in order, that a sequence of platform events yields.
pub open spec fn translate_all(s: InputState, es: Seq<PlatformEvent>) -> Seq<DomainEvent>
    decreases es.len(),
{
    if es.len() == 0 {
        Seq::empty()
    } else {
        translate_all(s, es.drop_last()) + as_seq(
            translate(advance_all(s, es.drop_last()), es.last()),
        )
    }
}

impl InputState {
    /// No button pressed, pointer at the origin.
    pub fn new() -> (r: InputState)
        ensures
            !r.buttons.left && !r.buttons.middle && !r.buttons.right,
            r.position == (Point { x: 0, y: 0 }),
    {
        InputState {
            buttons: ButtonState { left: false, middle: false, right: false },
            position: Point::origin(),
        }
    }
}

/// The key for a scancode and the character it produced.
pub fn map_key(scancode: u8, character: char) -> (r: Key)
    ensures
        r == key_of(scancode, character),
{
    if scancode == SCANCODE_BACKSPACE {
        Key::Backspace
    } else if scancode == SCANCODE_UP {
        Key::Up
    } else if scancode == SCANCODE_DOWN {
        Key::Down
    } else if scancode == SCANCODE_LEFT {
        Key::Left
    } else if scancode == SCANCODE_RIGHT {
        Key::Right
    } else if character == '\n' {
        Key::Enter
    } else {
        Key::Character(character)
    }
}

fn pick_button(left: bool, middle: bool) -> (r: MouseButton)
    ensures
        r == chosen_button(left, middle),
{
    if left {
        MouseButton::Left
    } else if middle {
        MouseButton::Middle
    } else {
        MouseButton::Right
    }
}

/// Translates one platform event and records what it changes of the state.
pub fn translate_event(state: &mut InputState, e: PlatformEvent) -> (r: Option<DomainEvent>)
    ensures
        r == translate(*old(state), e),
        *final(state) == advance(*old(state), e),
{
    match e {
        PlatformEvent::Mouse { x, y } => {
            state.position = Point { x, y };
            None
        },
        PlatformEvent::Button { left, middle, right } => {
            let out = if !left && !middle && !right {
                DomainEvent::MouseUp {
                    button: pick_button(state.buttons.left, state.buttons.middle),
                    position: state.position,
                }
            } else {
                DomainEvent::MouseDown { button: pick_button(left, middle), position: state.position }
            };
            state.buttons = ButtonState { left, middle, right };
            Some(out)
        },
        PlatformEvent::Key { character, scancode, pressed } => {
            let key = map_key(scancode, character);
            if pressed {
                Some(DomainEvent::KeyUp { key })
            } else {
                Some(DomainEvent::KeyDown { key })
            }
        },
        PlatformEvent::Quit => Some(DomainEvent::Quit),
        PlatformEvent::Resize { width, height } => Some(DomainEvent::WindowResize { width, height }),
        PlatformEvent::Other => None,
    }
}

} // verus!
