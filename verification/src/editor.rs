//! The editor: the quit flag, the terminal it owns, and the run loop.

use vstd::prelude::*;
use vstd::string::*;
use crate::command::{Command, Op, ops_of};
use crate::event::{
    is_quit_key, read_action, DeviceReply, InputEvent, KeyEvent, ReadAction, POLL_INTERVAL_MS,
};
use crate::frame::{
    banner, draw_ops, frame_lines, intro_message, placeholder, refresh_ops, row_line, VERSION,
};
use crate::terminal::{Size, Terminal, TerminalError, TerminalView};

verus! {

/// The editor.  It owns the terminal for the whole session.
#[derive(Debug)]
pub struct Editor {
    quit: bool,
    terminal: Terminal,
}

/// What an [`Editor`] is to the contracts: the quit flag and the view of its
/// terminal.
pub struct EditorView {
    pub quit: bool,
    pub terminal: TerminalView,
}

impl EditorView {
    /// The same state with more operations recorded.
    pub open spec fn emit(self, ops: Seq<Op>) -> EditorView {
        EditorView {
            quit: self.quit,
            terminal: TerminalView {
                size: self.terminal.size,
                output: self.terminal.output + ops,
            },
        }
    }

    /// The state after one render.
    pub open spec fn refreshed(self) -> EditorView {
        self.emit(refresh_ops(self.quit, self.terminal.size, VERSION@))
    }

    /// The state after a key press: the quit key sets the flag, any other
    /// key changes nothing.
    pub open spec fn key_pressed(self, key: KeyEvent) -> EditorView {
        if is_quit_key(key) {
            EditorView { quit: true, terminal: self.terminal }
        } else {
            self
        }
    }

    /// The state after a resize notification: the cached size is
    /// overwritten, then one render follows at once.
    pub open spec fn resized(self, width: u16, height: u16) -> EditorView {
        (EditorView {
            quit: self.quit,
            terminal: TerminalView {
                size: Size { width, height },
                output: self.terminal.output,
            },
        }).refreshed()
    }

    /// The state after one input event has been consumed.
    pub open spec fn dispatched(self, event: InputEvent) -> EditorView {
        match event {
            InputEvent::Key(key) => self.key_pressed(key),
            InputEvent::Resize(width, height) => self.resized(width, height),
            InputEvent::Mouse => self,
        }
    }

    /// The state after the top of one turn of the loop: a render, and, if
    /// the flag is set, the end of the session.
    pub open spec fn started(self) -> EditorView {
        if self.quit {
            self.refreshed().emit(seq![Op::Exit])
        } else {
            self.refreshed()
        }
    }

    /// The state after an event has been consumed and the next turn of the
    /// loop has reached its top.
    pub open spec fn stepped(self, event: InputEvent) -> EditorView {
        self.dispatched(event).started()
    }

    /// The state after the loop, already started, has been fed the events in
    /// order.  It consumes one event per turn and none once the flag is set.
    pub open spec fn fed(self, events: Seq<InputEvent>) -> EditorView
        decreases events.len(),
    {
        if self.quit || events.len() == 0 {
            self
        } else {
            self.stepped(events[0]).fed(events.drop_first())
        }
    }

    /// The state after a whole run on the events: the loop starts, then is
    /// fed.
    pub open spec fn ran(self, events: Seq<InputEvent>) -> EditorView {
        self.started().fed(events)
    }
}

impl View for Editor {
    type V = EditorView;

    closed spec fn view(&self) -> EditorView {
        EditorView { quit: self.quit, terminal: self.terminal@ }
    }
}

impl Editor {
    /// Makes the editor on a terminal of the reported dimensions, `None`
    /// standing for a failed query.  The flag starts unset and the session
    /// is entered.
    pub fn new(reported: Option<Size>) -> (res: Result<Editor, TerminalError>)
        ensures
            match reported {
                Some(size) => res is Ok && res->Ok_0@ == (EditorView {
                    quit: false,
                    terminal: TerminalView { size, output: seq![Op::Enter] },
                }),
                None => res is Err && res->Err_0 == TerminalError::TerminalUnavailable,
            },
    {
        match Terminal::new(reported) {
            Ok(terminal) => Ok(Editor { quit: false, terminal }),
            Err(e) => Err(e),
        }
    }

    /// Whether the quit key has been pressed.
    pub fn should_quit(&self) -> (quit: bool)
        ensures
            quit == self@.quit,
    {
        self.quit
    }

    /// The terminal that the editor owns.
    pub fn terminal(&self) -> (terminal: &Terminal)
        ensures
            terminal@ == self@.terminal,
    {
        &self.terminal
    }

    /// Hands out the operations recorded so far, oldest first, and starts a
    /// new record.
    pub fn take_output(&mut self) -> (commands: Vec<Command>)
        ensures
            ops_of(commands@) == old(self)@.terminal.output,
            final(self)@ == (EditorView {
                quit: old(self)@.quit,
                terminal: TerminalView { size: old(self)@.terminal.size, output: Seq::empty() },
            }),
    {
        self.terminal.take_output()
    }

    /// Records the banner line for the cached width.
    pub fn draw_intro_message(&mut self)
        ensures
            final(self)@ == old(self)@.emit(
                seq![Op::PrintLine(banner(old(self)@.terminal.size.width as int, VERSION@))],
            ),
    {
        let width = self.terminal.size().width;
        let line = intro_message(width, VERSION);
        self.terminal.print_line(line);
        proof {
            let before = old(self)@.terminal.output;
            let op = Op::PrintLine(banner(width as int, VERSION@));
            assert(before.push(op) =~= before + seq![op]);
        }
    }

    /// Records the rows of a frame: each row from 1 up to, and without, the
    /// height is cleared and then written, the banner row with the banner,
    /// every other row with the placeholder.
    pub fn draw_rows(&mut self)
        ensures
            final(self)@ == old(self)@.emit(
                draw_ops(frame_lines(old(self)@.terminal.size, VERSION@)),
            ),
    {
        let height = self.terminal.size().height;
        let ghost size = self@.terminal.size;
        let ghost lines = frame_lines(size, VERSION@);
        let mut row: u16 = 1;
        proof {
            assert(lines.take(0) =~= Seq::<Seq<char>>::empty());
            assert(self@.terminal.output + draw_ops(lines.take(0)) =~= self@.terminal.output);
        }
        while row < height
            invariant
                1 <= row,
                row <= height || row == 1,
                height == size.height,
                size == old(self)@.terminal.size,
                lines == frame_lines(size, VERSION@),
                self@ == old(self)@.emit(draw_ops(lines.take(row as int - 1))),
            decreases height - row,
        {
            let ghost before = self@.terminal.output;
            self.terminal.clear_current_line();
            if row == height / 3 {
                self.draw_intro_message();
            } else {
                self.terminal.print_line(String::from_str("~"));
                proof {
                    reveal_strlit("~");
                    assert("~"@ =~= placeholder());
                }
            }
            proof {
                let done = lines.take(row as int - 1);
                let next = lines.take(row as int);
                let line = row_line(size, VERSION@, row as int);
                assert(next.drop_last() =~= done);
                assert(next.last() == line);
                let pair = seq![Op::ClearCurrentLine, Op::PrintLine(line)];
                assert(self@.terminal.output =~= before + pair);
                assert(old(self)@.terminal.output + (draw_ops(done) + pair) =~= before + pair);
            }
            row += 1;
        }
        proof {
            assert(lines.take(row as int - 1) =~= lines);
        }
    }

    /// One decision of the blocking read of the next event: what to ask
    /// of the input device after its last answer.  Reading starts with
    /// `DeviceReply::Fresh` and is over when the action is `Deliver`.
    pub fn read_key(&self, reply: DeviceReply) -> (action: ReadAction)
        ensures
            action == read_action(reply),
    {
        match reply {
            DeviceReply::Polled(Some(true)) => ReadAction::Read,
            DeviceReply::Read(Some(event)) => ReadAction::Deliver(event),
            _ => ReadAction::Wait(POLL_INTERVAL_MS),
        }
    }

    /// Records one full render.  With the flag set it is the last frame,
    /// which shows the farewell line and no rows.
    pub fn refresh_screen(&mut self)
        ensures
            final(self)@ == old(self)@.refreshed(),
    {
        let ghost before = self@.terminal.output;
        self.terminal.hide_cursor();
        self.terminal.move_to(0, 0);
        if self.quit {
            self.terminal.print_line(String::from_str("the end."));
        } else {
            self.draw_rows();
            self.terminal.move_to(0, 0);
        }
        self.terminal.show_cursor();
        self.terminal.flush();
        proof {
            assert(self@.terminal.output =~= before + refresh_ops(
                old(self)@.quit,
                old(self)@.terminal.size,
                VERSION@,
            ));
        }
    }

    /// Acts on a key press: the quit key sets the flag; every other key is
    /// passed over.
    pub fn process_keypress(&mut self, key: KeyEvent)
        ensures
            final(self)@ == old(self)@.key_pressed(key),
    {
        if key.is_quit() {
            self.quit = true;
        }
    }

    /// Consumes one input event.  A key goes to the key handling; a resize
    /// overwrites the cached size and is followed by one render at once; a
    /// mouse event is dropped.
    pub fn process_input(&mut self, event: InputEvent)
        ensures
            final(self)@ == old(self)@.dispatched(event),
    {
        match event {
            InputEvent::Key(key) => self.process_keypress(key),
            InputEvent::Resize(width, height) => {
                self.terminal.resize(width, height);
                self.refresh_screen();
            },
            InputEvent::Mouse => (),
        }
    }

    /// The top of one turn of the loop: a render, and the end of the
    /// session if the flag is set.
    pub fn start(&mut self)
        ensures
            final(self)@ == old(self)@.started(),
    {
        self.refresh_screen();
        if self.quit {
            let ghost before = self@.terminal.output;
            self.terminal.exit();
            proof {
                assert(before.push(Op::Exit) =~= before + seq![Op::Exit]);
            }
        }
    }

    /// Consumes one event, then goes to the top of the next turn.
    pub fn step(&mut self, event: InputEvent)
        ensures
            final(self)@ == old(self)@.stepped(event),
    {
        self.process_input(event);
        self.start();
    }

    /// Runs the loop on a finite stream of events: a render, then, until
    /// the flag is set or the stream is used up, one event consumed and
    /// another render.  Once the flag is set the frame that follows is the
    /// farewell frame, the session is left, and no further event is
    /// consumed.
    pub fn run(&mut self, events: &Vec<InputEvent>)
        ensures
            final(self)@ == old(self)@.ran(events@),
    {
        self.start();
        let mut i: usize = 0;
        proof {
            assert(events@.skip(0) =~= events@);
        }
        while i < events.len() && !self.quit
            invariant
                i <= events.len(),
                self@.fed(events@.skip(i as int)) == old(self)@.ran(events@),
            decreases events.len() - i,
        {
            proof {
                assert(events@.skip(i as int).drop_first() =~= events@.skip(i as int + 1));
            }
            self.step(events[i]);
            i += 1;
        }
    }
}

} // verus!
