//! The terminal handle: the cached size and the operations recorded for the
//! device.

use vstd::prelude::*;
use crate::command::{Command, Op, ops_of, ops_of_push};

verus! {

/// Width and height of the terminal, in character cells.
#[derive(Clone, Copy, Debug, PartialEq, Eq, Structural)]
pub struct Size {
    pub width: u16,
    pub height: u16,
}

/// Why a terminal could not be set up.
#[derive(Clone, Copy, Debug, PartialEq, Eq, Structural)]
pub enum TerminalError {
    /// The device did not report its dimensions: the process is not attached
    /// to a usable terminal.
    TerminalUnavailable,
}

/// The single handle on the process's terminal.  It caches the last known
/// size and records, in order, the operations that are owed to the device.
#[derive(Debug)]
pub struct Terminal {
    size: Size,
    output: Vec<Command>,
}

/// What a [`Terminal`] is to the contracts: its cached size and the
/// operations recorded since the record was last taken.
pub struct TerminalView {
    pub size: Size,
    pub output: Seq<Op>,
}

impl TerminalView {
    /// The same terminal with one more operation recorded.
    pub open spec fn with(self, op: Op) -> TerminalView {
        TerminalView { size: self.size, output: self.output.push(op) }
    }
}

impl View for Terminal {
    type V = TerminalView;

    closed spec fn view(&self) -> TerminalView {
        TerminalView { size: self.size, output: ops_of(self.output@) }
    }
}

impl Terminal {
    /// Sets the terminal up from the dimensions that the device reported,
    /// `None` standing for a failed query.  On success the session is
    /// entered: `Enter` is the first operation recorded.
    pub fn new(reported: Option<Size>) -> (res: Result<Terminal, TerminalError>)
        ensures
            match reported {
                Some(size) => res is Ok && res->Ok_0@ == (TerminalView {
                    size,
                    output: seq![Op::Enter],
                }),
                None => res is Err && res->Err_0 == TerminalError::TerminalUnavailable,
            },
    {
        match reported {
            Some(size) => {
                let mut terminal = Terminal { size, output: Vec::new() };
                terminal.enter();
                proof {
                    assert(terminal@.output =~= seq![Op::Enter]);
                }
                Ok(terminal)
            },
            None => Err(TerminalError::TerminalUnavailable),
        }
    }

    fn record(&mut self, command: Command)
        ensures
            final(self)@ == old(self)@.with(command@),
    {
        proof {
            ops_of_push(self.output@, command);
        }
        self.output.push(command);
    }

    /// Records the switch to raw mode and the alternate screen.
    pub fn enter(&mut self)
        ensures
            final(self)@ == old(self)@.with(Op::Enter),
    {
        self.record(Command::Enter);
    }

    /// Records the return to the prior screen and to cooked mode.
    pub fn exit(&mut self)
        ensures
            final(self)@ == old(self)@.with(Op::Exit),
    {
        self.record(Command::Exit);
    }

    /// Records a cursor move to column `x`, row `y`.  The coordinates are
    /// passed on as they are, whatever the cached size.
    pub fn move_to(&mut self, x: u16, y: u16)
        ensures
            final(self)@ == old(self)@.with(Op::MoveTo(x, y)),
    {
        self.record(Command::MoveTo(x, y));
    }

    pub fn flush(&mut self)
        ensures
            final(self)@ == old(self)@.with(Op::Flush),
    {
        self.record(Command::Flush);
    }

    pub fn hide_cursor(&mut self)
        ensures
            final(self)@ == old(self)@.with(Op::HideCursor),
    {
        self.record(Command::HideCursor);
    }

    pub fn show_cursor(&mut self)
        ensures
            final(self)@ == old(self)@.with(Op::ShowCursor),
    {
        self.record(Command::ShowCursor);
    }

    pub fn clear(&mut self)
        ensures
            final(self)@ == old(self)@.with(Op::Clear),
    {
        self.record(Command::Clear);
    }

    pub fn clear_current_line(&mut self)
        ensures
            final(self)@ == old(self)@.with(Op::ClearCurrentLine),
    {
        self.record(Command::ClearCurrentLine);
    }

    /// Records the output of one line of text, ended by a carriage return
    /// and a line feed.
    pub fn print_line(&mut self, text: String)
        ensures
            final(self)@ == old(self)@.with(Op::PrintLine(text@)),
    {
        self.record(Command::PrintLine(text));
    }

    /// The last known size; the device is not asked again.
    pub fn size(&self) -> (size: &Size)
        ensures
            *size == self@.size,
    {
        &self.size
    }

    /// Overwrites the cached size with the dimensions of a resize
    /// notification.
    pub fn resize(&mut self, width: u16, height: u16)
        ensures
            final(self)@ == (TerminalView {
                size: Size { width, height },
                output: old(self)@.output,
            }),
    {
        self.size = Size { width, height };
    }

    /// Hands out the recorded operations, oldest first, and starts a new
    /// record.
    pub fn take_output(&mut self) -> (commands: Vec<Command>)
        ensures
            ops_of(commands@) == old(self)@.output,
            final(self)@ == (TerminalView { size: old(self)@.size, output: Seq::empty() }),
    {
        let mut commands: Vec<Command> = Vec::new();
        std::mem::swap(&mut commands, &mut self.output);
        proof {
            assert(ops_of(self.output@) =~= Seq::<Op>::empty());
        }
        commands
    }
}

} // verus!
