//! The control core of a full-screen terminal program.
//!
//! The library decides *what* is done to the terminal device and *when*: it
//! records every device operation as a [`Command`] and turns input events
//! into state changes.  Performing the recorded commands and reading events
//! from the device is left to the program around it.

pub mod command;
pub mod editor;
pub mod event;
pub mod frame;
pub mod terminal;
pub mod theorems;

pub use command::{Command, Op};
pub use editor::{Editor, EditorView};
pub use event::{
    DeviceReply, InputEvent, KeyCode, KeyEvent, KeyModifiers, ReadAction, POLL_INTERVAL_MS,
};
pub use frame::{intro_message, VERSION};
pub use terminal::{Size, Terminal, TerminalError, TerminalView};
