//! Device operations as values.

use vstd::prelude::*;

verus! {

/// One operation on the terminal device, in the order the program must
/// perform it.
#[derive(Debug, PartialEq, Eq)]
pub enum Command {
    /// Switch to raw input mode and to the alternate screen.
    Enter,
    /// Leave the alternate screen and switch raw input mode off.
    Exit,
    /// Put the cursor at zero-based column and row.
    MoveTo(u16, u16),
    /// Force buffered output to the device.
    Flush,
    HideCursor,
    ShowCursor,
    /// Erase the whole visible screen.
    Clear,
    /// Erase the line the cursor is on.
    ClearCurrentLine,
    /// Write the text, then a carriage return and a line feed.
    PrintLine(String),
}

/// The mathematical value of a [`Command`]: the same operation with its
/// text as a sequence of characters.
pub enum Op {
    Enter,
    Exit,
    MoveTo(u16, u16),
    Flush,
    HideCursor,
    ShowCursor,
    Clear,
    ClearCurrentLine,
    PrintLine(Seq<char>),
}

impl View for Command {
    type V = Op;

    open spec fn view(&self) -> Op {
        match *self {
            Command::Enter => Op::Enter,
            Command::Exit => Op::Exit,
            Command::MoveTo(x, y) => Op::MoveTo(x, y),
            Command::Flush => Op::Flush,
            Command::HideCursor => Op::HideCursor,
            Command::ShowCursor => Op::ShowCursor,
            Command::Clear => Op::Clear,
            Command::ClearCurrentLine => Op::ClearCurrentLine,
            Command::PrintLine(text) => Op::PrintLine(text@),
        }
    }
}

/// The operations that a list of commands stands for, in order.
pub open spec fn ops_of(commands: Seq<Command>) -> Seq<Op> {
    Seq::new(commands.len(), |i: int| commands[i]@)
}

/// Appending a command appends its operation.
pub proof fn ops_of_push(commands: Seq<Command>, command: Command)
    ensures
        ops_of(commands.push(command)) == ops_of(commands).push(command@),
{
    assert(ops_of(commands.push(command)) =~= ops_of(commands).push(command@));
}

} // verus!
