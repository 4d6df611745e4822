//! Input events: what the platform reports, and the part of it that the
//! drawing surface understands.

use vstd::prelude::*;
use crate::grid::Point;

verus! {

/// A key as the platform reports it.
#[derive(Debug, Copy, Clone, PartialEq, Eq, Structural)]
pub enum RawKey {
    /// A key that stands for a character.
    Char(char),
    /// Any other key: arrows, function keys, escape and the like.
    Other,
}

/// A pointer report of the platform, with column and row.
#[derive(Debug, Copy, Clone, PartialEq, Eq, Structural)]
pub enum RawMouse {
    Down(u16, u16),
    Up(u16, u16),
    Drag(u16, u16),
    /// Scrolling and whatever else the pointer can do.
    Other,
}

/// An input report of the platform.
#[derive(Debug, Copy, Clone, PartialEq, Eq, Structural)]
pub enum RawEvent {
    Key { key: RawKey, shift: bool, control: bool, alt: bool },
    Mouse(RawMouse),
    /// A report that is neither a key nor the pointer.
    Other,
}

/// Why an input report was not understood.
#[derive(Debug, Copy, Clone, PartialEq, Eq, Structural)]
pub enum InputError {
    UnsupportedEvent,
    UnsupportedKeyEvent,
    UnsupportedMouseEvent,
}

impl InputError {
    /// The message shown for this error.
    pub fn message(&self) -> (out: &'static str)
        ensures
            out@ == match *self {
                InputError::UnsupportedEvent => "unsupported input event"@,
                InputError::UnsupportedKeyEvent => "unsupported input key event"@,
                InputError::UnsupportedMouseEvent => "unsupported input mouse event"@,
            },
    {
        match self {
            InputError::UnsupportedEvent => "unsupported input event",
            InputError::UnsupportedKeyEvent => "unsupported input key event",
            InputError::UnsupportedMouseEvent => "unsupported input mouse event",
        }
    }
}

/// The modifier that a key was pressed with.
#[derive(Debug, Copy, Clone, PartialEq, Eq, Structural)]
pub enum KeyModifier {
    Ctrl,
}

/// A character key, alone or with the control key.
#[derive(Debug, Copy, Clone, PartialEq, Eq, Structural)]
pub struct KeyEvent {
    pub char: char,
    pub modifier: Option<KeyModifier>,
}

impl KeyEvent {
    /// What a key report means: a character key is understood, and counts
    /// as pressed with control where control is the only modifier held.
    pub open spec fn decoded(key: RawKey, shift: bool, control: bool, alt: bool) -> Result<
        KeyEvent,
        InputError,
    > {
        match key {
            RawKey::Char(char) => Ok(
                KeyEvent {
                    char,
                    modifier: if control && !shift && !alt {
                        Some(KeyModifier::Ctrl)
                    } else {
                        None
                    },
                },
            ),
            RawKey::Other => Err(InputError::UnsupportedKeyEvent),
        }
    }

    /// Reads a key report.
    pub fn decode(key: RawKey, shift: bool, control: bool, alt: bool) -> (out: Result<
        KeyEvent,
        InputError,
    >)
        ensures
            out == KeyEvent::decoded(key, shift, control, alt),
    {
        match key {
            RawKey::Char(char) => {
                let modifier = if control && !shift && !alt {
                    Some(KeyModifier::Ctrl)
                } else {
                    None
                };
                Ok(KeyEvent { char, modifier })
            },
            RawKey::Other => Err(InputError::UnsupportedKeyEvent),
        }
    }
}

impl Default for KeyEvent {
    fn default() -> (out: Self)
        ensures
            out == (KeyEvent { char: '\0', modifier: None }),
    {
        KeyEvent { char: '\0', modifier: None }
    }
}

/// What the pointer did.
#[derive(Debug, Copy, Clone, PartialEq, Eq, Structural)]
pub enum MouseAction {
    Press,
    Drag,
    Release,
}

/// A pointer event at a position.
#[derive(Debug, Copy, Clone, PartialEq, Eq, Structural)]
pub struct MouseEvent {
    pub action: MouseAction,
    pub pos: Point,
}

impl MouseEvent {
    pub fn new(action: MouseAction, pos: Point) -> (out: Self)
        ensures
            out == (MouseEvent { action, pos }),
    {
        Self { action, pos }
    }

    /// What a pointer report means: button down is a press, button up a
    /// release, a move with the button held a drag; nothing else is
    /// understood.
    pub open spec fn decoded(raw: RawMouse) -> Result<MouseEvent, InputError> {
        match raw {
            RawMouse::Down(x, y) => Ok(
                MouseEvent { action: MouseAction::Press, pos: Point { x, y } },
            ),
            RawMouse::Up(x, y) => Ok(
                MouseEvent { action: MouseAction::Release, pos: Point { x, y } },
            ),
            RawMouse::Drag(x, y) => Ok(
                MouseEvent { action: MouseAction::Drag, pos: Point { x, y } },
            ),
            RawMouse::Other => Err(InputError::UnsupportedMouseEvent),
        }
    }

    /// Reads a pointer report.
    pub fn decode(raw: RawMouse) -> (out: Result<MouseEvent, InputError>)
        ensures
            out == MouseEvent::decoded(raw),
    {
        match raw {
            RawMouse::Down(x, y) => Ok(MouseEvent::new(MouseAction::Press, Point::new(x, y))),
            RawMouse::Up(x, y) => Ok(MouseEvent::new(MouseAction::Release, Point::new(x, y))),
            RawMouse::Drag(x, y) => Ok(MouseEvent::new(MouseAction::Drag, Point::new(x, y))),
            RawMouse::Other => Err(InputError::UnsupportedMouseEvent),
        }
    }
}

/// An input event that the drawing surface understands.
#[derive(Debug, Copy, Clone, PartialEq, Eq, Structural)]
pub enum Event {
    Key(KeyEvent),
    Mouse(MouseEvent),
}

impl Event {
    /// What an input report means.
    pub open spec fn decoded(raw: RawEvent) -> Result<Event, InputError> {
        match raw {
            RawEvent::Key { key, shift, control, alt } => match KeyEvent::decoded(
                key,
                shift,
                control,
                alt,
            ) {
                Ok(event) => Ok(Event::Key(event)),
                Err(error) => Err(error),
            },
            RawEvent::Mouse(mouse) => match MouseEvent::decoded(mouse) {
                Ok(event) => Ok(Event::Mouse(event)),
                Err(error) => Err(error),
            },
            RawEvent::Other => Err(InputError::UnsupportedEvent),
        }
    }

    /// Reads an input report.
    pub fn decode(raw: RawEvent) -> (out: Result<Event, InputError>)
        ensures
            out == Event::decoded(raw),
    {
        match raw {
            RawEvent::Key { key, shift, control, alt } => match KeyEvent::decode(
                key,
                shift,
                control,
                alt,
            ) {
                Ok(event) => Ok(Event::Key(event)),
                Err(error) => Err(error),
            },
            RawEvent::Mouse(mouse) => match MouseEvent::decode(mouse) {
                Ok(event) => Ok(Event::Mouse(event)),
                Err(error) => Err(error),
            },
            RawEvent::Other => Err(InputError::UnsupportedEvent),
        }
    }
}

} // verus!
