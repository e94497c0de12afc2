//! Input events as plain values.

use vstd::prelude::*;

verus! {

/// The key of a key event.
#[derive(Clone, Copy, Debug, PartialEq, Eq, Structural)]
pub enum KeyCode {
    Backspace,
    Enter,
    Left,
    Right,
    Up,
    Down,
    Home,
    End,
    PageUp,
    PageDown,
    Tab,
    BackTab,
    Delete,
    Insert,
    /// A function key, by its number.
    F(u8),
    /// A character key.
    Char(char),
    Null,
    Esc,
}

/// The modifier keys held down with a key.
#[derive(Clone, Copy, Debug, PartialEq, Eq, Structural)]
pub struct KeyModifiers {
    pub shift: bool,
    pub control: bool,
    pub alt: bool,
}

/// A key press: the key and the modifiers held with it.
#[derive(Clone, Copy, Debug, PartialEq, Eq, Structural)]
pub struct KeyEvent {
    pub code: KeyCode,
    pub modifiers: KeyModifiers,
}

/// One event of the terminal's input stream.
#[derive(Clone, Copy, Debug, PartialEq, Eq, Structural)]
pub enum InputEvent {
    Key(KeyEvent),
    /// The terminal now has this width and height.
    Resize(u16, u16),
    /// Any mouse event; none is acted on.
    Mouse,
}

/// How long one wait for input lasts at most, in milliseconds.
pub const POLL_INTERVAL_MS: u64 = 16;

/// What the input device answered to the last thing asked of it.
#[derive(Clone, Copy, Debug, PartialEq, Eq, Structural)]
pub enum DeviceReply {
    /// Nothing has been asked yet.
    Fresh,
    /// The answer to a bounded wait: whether an event is available, `None`
    /// if the wait failed.
    Polled(Option<bool>),
    /// The answer to a read: the event, `None` if the read failed.
    Read(Option<InputEvent>),
}

/// What to ask of the input device next.
#[derive(Clone, Copy, Debug, PartialEq, Eq, Structural)]
pub enum ReadAction {
    /// Wait for an event, for at most this many milliseconds.
    Wait(u64),
    /// Read the event that is available.
    Read,
    /// Reading is over: this is the event.
    Deliver(InputEvent),
}

/// The next action of a blocking read that is made of bounded waits: an
/// event is read once a wait has found one available, and delivered once it
/// has been read; after anything else the wait is repeated.
pub open spec fn read_action(reply: DeviceReply) -> ReadAction {
    match reply {
        DeviceReply::Polled(Some(true)) => ReadAction::Read,
        DeviceReply::Read(Some(event)) => ReadAction::Deliver(event),
        _ => ReadAction::Wait(POLL_INTERVAL_MS),
    }
}

/// The one key that ends the program: the character `q` with the control
/// modifier held, and no other modifier.
pub open spec fn is_quit_key(key: KeyEvent) -> bool {
    &&& key.code == KeyCode::Char('q')
    &&& key.modifiers.control
    &&& !key.modifiers.shift
    &&& !key.modifiers.alt
}

/// Whether an event is a press of the quit key.
pub open spec fn is_quit_event(event: InputEvent) -> bool {
    match event {
        InputEvent::Key(key) => is_quit_key(key),
        _ => false,
    }
}

impl KeyEvent {
    /// Tells whether this key press is the quit key.
    pub fn is_quit(&self) -> (quit: bool)
        ensures
            quit == is_quit_key(*self),
    {
        match self.code {
            KeyCode::Char(c) => c == 'q' && self.modifiers.control && !self.modifiers.shift
                && !self.modifiers.alt,
            _ => false,
        }
    }
}

} // verus!
