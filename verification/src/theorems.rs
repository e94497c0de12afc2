//! Facts about frames and about the run loop, proved from the definitions
//! that the contracts of the library use.

use vstd::prelude::*;
use crate::command::Op;
use crate::editor::EditorView;
use crate::event::{is_quit_event, is_quit_key, InputEvent, KeyEvent};
use crate::frame::{
    banner, banner_padding, banner_row, banner_text, draw_ops, farewell, frame_lines,
    placeholder, refresh_ops, row_line, spaces, VERSION,
};
use crate::terminal::{Size, TerminalView};

verus! {

/// Drawing lines takes two operations per line: the operation at an even
/// place clears the current line, the one after it writes the line of that
/// row.
pub proof fn draw_ops_by_row(lines: Seq<Seq<char>>)
    ensures
        draw_ops(lines).len() == 2 * lines.len(),
        forall|i: int|
            0 <= i < lines.len() ==> {
                &&& (#[trigger] draw_ops(lines)[2 * i]) == Op::ClearCurrentLine
                &&& draw_ops(lines)[2 * i + 1] == Op::PrintLine(lines[i])
            },
    decreases lines.len(),
{
    if lines.len() > 0 {
        draw_ops_by_row(lines.drop_last());
        let head = draw_ops(lines.drop_last());
        assert forall|i: int| 0 <= i < lines.len() implies {
            &&& (#[trigger] draw_ops(lines)[2 * i]) == Op::ClearCurrentLine
            &&& draw_ops(lines)[2 * i + 1] == Op::PrintLine(lines[i])
        } by {
            if i < lines.len() - 1 {
                assert(head[2 * i] == Op::ClearCurrentLine);
                assert(lines.drop_last()[i] == lines[i]);
            }
        }
    }
}

/// On a terminal at least three rows high a frame has one line less than
/// the terminal has rows.  The line of the row at a third of the height is
/// the banner; every other line is the placeholder, a single character.
/// Drawing the frame clears and writes each of these lines in turn, and
/// does nothing else.
pub proof fn frame_has_one_banner_row(size: Size, version: Seq<char>)
    requires
        size.height >= 3,
    ensures
        frame_lines(size, version).len() == size.height - 1,
        1 <= banner_row(size) < size.height,
        frame_lines(size, version)[banner_row(size) - 1] == banner(size.width as int, version),
        forall|i: int|
            0 <= i < size.height - 1 && i != banner_row(size) - 1 ==> {
                &&& (#[trigger] frame_lines(size, version)[i]) == placeholder()
                &&& frame_lines(size, version)[i].len() == 1
            },
        draw_ops(frame_lines(size, version)).len() == 2 * (size.height - 1),
        forall|i: int|
            0 <= i < size.height - 1 ==> {
                &&& (#[trigger] draw_ops(frame_lines(size, version))[2 * i])
                    == Op::ClearCurrentLine
                &&& draw_ops(frame_lines(size, version))[2 * i + 1] == Op::PrintLine(
                    if i == banner_row(size) - 1 {
                        banner(size.width as int, version)
                    } else {
                        placeholder()
                    },
                )
            },
{
    let lines = frame_lines(size, version);
    draw_ops_by_row(lines);
    assert forall|i: int| 0 <= i < size.height - 1 implies {
        &&& (#[trigger] draw_ops(lines)[2 * i]) == Op::ClearCurrentLine
        &&& draw_ops(lines)[2 * i + 1] == Op::PrintLine(
            if i == banner_row(size) - 1 {
                banner(size.width as int, version)
            } else {
                placeholder()
            },
        )
    } by {
        assert(lines[i] == row_line(size, version, i + 1));
    }
}

/// The banner is never wider than the terminal, and on a terminal of some
/// width it begins with `~`.
pub proof fn banner_within_width(width: u16, version: Seq<char>)
    ensures
        banner(width as int, version).len() <= width,
        width >= 1 ==> banner(width as int, version)[0] == '~',
{
    let text = banner_text(version);
    let full = seq!['~'] + spaces(banner_padding(width as int, text.len() as int)) + text;
    assert(full[0] == '~');
}

/// Where the terminal is wider than the banner text, the banner is shown
/// whole: a `~`, the spaces that centre it, and the text.  Where it is not,
/// the banner is cut to the width exactly.
pub proof fn banner_whole_or_cut(width: u16, version: Seq<char>)
    ensures
        width > banner_text(version).len() ==> banner(width as int, version) == seq!['~']
            + spaces(banner_padding(width as int, banner_text(version).len() as int))
            + banner_text(version),
        width <= banner_text(version).len() ==> banner(width as int, version).len() == width,
{
}

/// A resize notification overwrites the cached size, and while the editor
/// runs it is followed by two renders at the new size: the one it triggers
/// at once and the one of the next turn of the loop.
pub proof fn resize_renders_once_more(state: EditorView, width: u16, height: u16)
    requires
        !state.quit,
    ensures
        state.dispatched(InputEvent::Resize(width, height)).terminal.size == (Size {
            width,
            height,
        }),
        state.dispatched(InputEvent::Resize(width, height)).terminal.output
            == state.terminal.output + refresh_ops(
            false,
            Size { width, height },
            VERSION@,
        ),
        state.stepped(InputEvent::Resize(width, height)) == (EditorView {
            quit: false,
            terminal: TerminalView {
                size: Size { width, height },
                output: state.terminal.output + refresh_ops(
                    false,
                    Size { width, height },
                    VERSION@,
                ) + refresh_ops(false, Size { width, height }, VERSION@),
            },
        }),
{
}

/// The flag is set by the quit key and by nothing else: after an event it
/// is set if it was set before or the event is the quit key.  A key other
/// than the quit key, and a mouse event, leave the whole state as it was.
pub proof fn quit_only_on_quit_key(state: EditorView, event: InputEvent)
    ensures
        state.dispatched(event).quit == (state.quit || is_quit_event(event)),
        (event is Key && !is_quit_event(event)) || event is Mouse ==> state.dispatched(event)
            == state,
        is_quit_event(event) ==> state.dispatched(event).terminal == state.terminal,
{
}

/// A run ends with the flag set exactly if it was set at the start or the
/// quit key is among the events.
pub proof fn run_quits_on_quit_key(state: EditorView, events: Seq<InputEvent>)
    ensures
        state.ran(events).quit == (state.quit || exists|i: int|
            0 <= i < events.len() && is_quit_event(#[trigger] events[i])),
{
    fed_quits_on_quit_key(state.started(), events);
}

/// A started loop that is fed events ends with the flag set exactly if it
/// was set before or the quit key is among the events.
pub proof fn fed_quits_on_quit_key(state: EditorView, events: Seq<InputEvent>)
    ensures
        state.fed(events).quit == (state.quit || exists|i: int|
            0 <= i < events.len() && is_quit_event(#[trigger] events[i])),
    decreases events.len(),
{
    if !state.quit && events.len() > 0 {
        let next = state.stepped(events[0]);
        let rest = events.drop_first();
        fed_quits_on_quit_key(next, rest);
        if next.quit {
            assert(is_quit_event(events[0]));
        } else if state.fed(events).quit {
            let j = choose|j: int| 0 <= j < rest.len() && is_quit_event(#[trigger] rest[j]);
            assert(is_quit_event(events[j + 1]));
        } else {
            assert forall|i: int| 0 <= i < events.len() implies !is_quit_event(
                #[trigger] events[i],
            ) by {
                if i > 0 {
                    assert(rest[i - 1] == events[i]);
                }
            }
        }
    }
}

/// The operations of the last frame: no row is drawn in it.
pub open spec fn farewell_frame() -> Seq<Op> {
    seq![
        Op::HideCursor,
        Op::MoveTo(0, 0),
        Op::PrintLine(farewell()),
        Op::ShowCursor,
        Op::Flush,
    ]
}

/// When the quit key is pressed while the editor runs, one more frame is
/// rendered, the farewell frame; then the session is left, and whatever
/// events follow are not consumed.
pub proof fn farewell_after_quit(state: EditorView, key: KeyEvent, later: Seq<InputEvent>)
    requires
        !state.quit,
        is_quit_key(key),
    ensures
        state.stepped(InputEvent::Key(key)) == (EditorView {
            quit: true,
            terminal: TerminalView {
                size: state.terminal.size,
                output: state.terminal.output + farewell_frame() + seq![Op::Exit],
            },
        }),
        state.stepped(InputEvent::Key(key)).fed(later) == state.stepped(InputEvent::Key(key)),
        state.fed(seq![InputEvent::Key(key)] + later) == state.stepped(InputEvent::Key(key)),
{
    let pressed = state.dispatched(InputEvent::Key(key));
    assert(refresh_ops(true, state.terminal.size, VERSION@) =~= farewell_frame());
    let events = seq![InputEvent::Key(key)] + later;
    assert(events[0] == InputEvent::Key(key));
    assert(events.drop_first() =~= later);
}

/// How often the session is left in a record of operations.
pub open spec fn exits(ops: Seq<Op>) -> nat
    decreases ops.len(),
{
    if ops.len() == 0 {
        0
    } else {
        exits(ops.drop_last()) + if ops.last() is Exit { 1nat } else { 0nat }
    }
}

/// The count over a record with one more operation.
pub proof fn exits_push(ops: Seq<Op>, op: Op)
    ensures
        exits(ops.push(op)) == exits(ops) + if op is Exit { 1nat } else { 0nat },
{
    assert(ops.push(op).drop_last() =~= ops);
}

/// The count over two records, one after the other, is the sum of the
/// counts.
pub proof fn exits_concat(first: Seq<Op>, second: Seq<Op>)
    ensures
        exits(first + second) == exits(first) + exits(second),
    decreases second.len(),
{
    if second.len() == 0 {
        assert(first + second =~= first);
    } else {
        exits_concat(first, second.drop_last());
        assert((first + second).drop_last() =~= first + second.drop_last());
    }
}

/// Drawing rows never leaves the session.
pub proof fn draw_ops_never_exit(lines: Seq<Seq<char>>)
    ensures
        exits(draw_ops(lines)) == 0,
    decreases lines.len(),
{
    if lines.len() > 0 {
        draw_ops_never_exit(lines.drop_last());
        let head = draw_ops(lines.drop_last());
        let line = Op::PrintLine(lines.last());
        assert(draw_ops(lines) =~= head.push(Op::ClearCurrentLine).push(line));
        exits_push(head, Op::ClearCurrentLine);
        exits_push(head.push(Op::ClearCurrentLine), line);
    }
}

/// A render never leaves the session.
pub proof fn refresh_never_exits(quit: bool, size: Size, version: Seq<char>)
    ensures
        exits(refresh_ops(quit, size, version)) == 0,
{
    let none = Seq::<Op>::empty();
    let head = none.push(Op::HideCursor).push(Op::MoveTo(0, 0));
    exits_push(none, Op::HideCursor);
    exits_push(none.push(Op::HideCursor), Op::MoveTo(0, 0));
    let body = if quit {
        head.push(Op::PrintLine(farewell()))
    } else {
        (head + draw_ops(frame_lines(size, version))).push(Op::MoveTo(0, 0))
    };
    if quit {
        exits_push(head, Op::PrintLine(farewell()));
    } else {
        draw_ops_never_exit(frame_lines(size, version));
        exits_concat(head, draw_ops(frame_lines(size, version)));
        exits_push(head + draw_ops(frame_lines(size, version)), Op::MoveTo(0, 0));
    }
    exits_push(body, Op::ShowCursor);
    exits_push(body.push(Op::ShowCursor), Op::Flush);
    assert(refresh_ops(quit, size, version) =~= body.push(Op::ShowCursor).push(Op::Flush));
}

/// A started loop that is fed events leaves the session once if it ends
/// with the flag set and had it unset before, and not at all otherwise;
/// when it does, leaving is the last operation.
pub proof fn fed_exits_once(state: EditorView, events: Seq<InputEvent>)
    ensures
        exits(state.fed(events).terminal.output) == exits(state.terminal.output) + if !state.quit
            && state.fed(events).quit { 1nat } else { 0nat },
        !state.quit && state.fed(events).quit ==> state.fed(events).terminal.output.last()
            == Op::Exit,
    decreases events.len(),
{
    if !state.quit && events.len() > 0 {
        let next = state.stepped(events[0]);
        step_exits(state, events[0]);
        fed_exits_once(next, events.drop_first());
    }
}

/// One step of the loop leaves the session once, as its last operation, if
/// it ends with the flag set, and not at all otherwise.
pub proof fn step_exits(state: EditorView, event: InputEvent)
    requires
        !state.quit,
    ensures
        exits(state.stepped(event).terminal.output) == exits(state.terminal.output)
            + if state.stepped(event).quit { 1nat } else { 0nat },
        state.stepped(event).quit ==> state.stepped(event).terminal.output.last() == Op::Exit,
{
    let after = state.dispatched(event);
    match event {
        InputEvent::Resize(width, height) => {
            let size = Size { width, height };
            refresh_never_exits(false, size, VERSION@);
            exits_concat(state.terminal.output, refresh_ops(false, size, VERSION@));
        },
        _ => {},
    }
    assert(exits(after.terminal.output) == exits(state.terminal.output));
    start_exits(after);
}

/// The top of a turn leaves the session once, as its last operation, if the
/// flag is set, and not at all otherwise.
pub proof fn start_exits(state: EditorView)
    ensures
        state.started().quit == state.quit,
        exits(state.started().terminal.output) == exits(state.terminal.output) + if state.quit {
            1nat
        } else {
            0nat
        },
        state.quit ==> state.started().terminal.output.last() == Op::Exit,
{
    let frame = refresh_ops(state.quit, state.terminal.size, VERSION@);
    refresh_never_exits(state.quit, state.terminal.size, VERSION@);
    exits_concat(state.terminal.output, frame);
    if state.quit {
        assert(state.started().terminal.output =~= (state.terminal.output + frame).push(
            Op::Exit,
        ));
        exits_push(state.terminal.output + frame, Op::Exit);
    }
}

/// A whole run leaves the session exactly once if it ends with the flag
/// set, however many events it consumed, and then as its last operation; a
/// run that used up its events with the flag unset has not left it.
pub proof fn run_exits_once(state: EditorView, events: Seq<InputEvent>)
    ensures
        exits(state.ran(events).terminal.output) == exits(state.terminal.output) + if state.ran(
            events,
        ).quit { 1nat } else { 0nat },
        state.ran(events).quit ==> state.ran(events).terminal.output.last() == Op::Exit,
{
    start_exits(state);
    fed_exits_once(state.started(), events);
}

} // verus!
