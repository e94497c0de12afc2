//! What a frame shows: the banner line, the placeholder rows and the
//! operations that draw them.

use vstd::prelude::*;
use vstd::string::*;
use crate::command::Op;
use crate::terminal::Size;

verus! {

/// The version shown in the banner.
pub const VERSION: &'static str = "0.1.0";

/// The text of the banner for a version: the program's name, then the
/// version.
pub open spec fn banner_text(version: Seq<char>) -> Seq<char> {
    "Kora editor -- version "@ + version
}

/// The number of spaces between the leading `~` and the banner text: half
/// of the room that the text leaves in the width, less one for the `~`, and
/// never below zero.
pub open spec fn banner_padding(width: int, text_len: int) -> int {
    let half = (if width > text_len { width - text_len } else { 0 }) / 2;
    if half > 1 { half - 1 } else { 0 }
}

/// A run of `n` spaces.
pub open spec fn spaces(n: int) -> Seq<char> {
    Seq::new(n as nat, |i: int| ' ')
}

/// The first `width` characters of a line, or all of it if it is shorter.
pub open spec fn truncated(line: Seq<char>, width: int) -> Seq<char> {
    if line.len() > width { line.take(width) } else { line }
}

/// The banner line for a terminal width: a `~`, the padding that centres
/// the text, the text, all cut to the width.
pub open spec fn banner(width: int, version: Seq<char>) -> Seq<char> {
    let text = banner_text(version);
    truncated(seq!['~'] + spaces(banner_padding(width, text.len() as int)) + text, width)
}

/// The line of an empty row.
pub open spec fn placeholder() -> Seq<char> {
    seq!['~']
}

/// The row that holds the banner: the one at a third of the height.
pub open spec fn banner_row(size: Size) -> int {
    size.height as int / 3
}

/// The text of the given row of a frame.
pub open spec fn row_line(size: Size, version: Seq<char>, row: int) -> Seq<char> {
    if row == banner_row(size) { banner(size.width as int, version) } else { placeholder() }
}

/// The lines of a frame, top to bottom: those of the rows from 1 up to, and
/// without, the height.
pub open spec fn frame_lines(size: Size, version: Seq<char>) -> Seq<Seq<char>> {
    Seq::new(
        if size.height >= 1 { (size.height - 1) as nat } else { 0 },
        |i: int| row_line(size, version, i + 1),
    )
}

/// The operations that draw lines one below the other: each line is cleared
/// first and then written.
pub open spec fn draw_ops(lines: Seq<Seq<char>>) -> Seq<Op>
    decreases lines.len(),
{
    if lines.len() == 0 {
        Seq::empty()
    } else {
        draw_ops(lines.drop_last()) + seq![Op::ClearCurrentLine, Op::PrintLine(lines.last())]
    }
}

/// The line that the last frame shows.
pub open spec fn farewell() -> Seq<char> {
    "the end."@
}

/// The operations of one full render: the cursor is hidden and sent to the
/// origin; then either the farewell line is written, or the rows are drawn
/// and the cursor sent back to the origin; then the cursor is shown again
/// and the output flushed.
pub open spec fn refresh_ops(quit: bool, size: Size, version: Seq<char>) -> Seq<Op> {
    seq![Op::HideCursor, Op::MoveTo(0, 0)] + (if quit {
        seq![Op::PrintLine(farewell())]
    } else {
        draw_ops(frame_lines(size, version)) + seq![Op::MoveTo(0, 0)]
    }) + seq![Op::ShowCursor, Op::Flush]
}

/// Builds the banner line for a terminal of the given width.
pub fn intro_message(width: u16, version: &str) -> (line: String)
    ensures
        line@ == banner(width as int, version@),
{
    let mut text = String::from_str("Kora editor -- version ");
    text.append(version);
    let len: usize = text.as_str().unicode_len();
    let limit: usize = width as usize;
    let half: usize = if limit > len { (limit - len) / 2 } else { 0 };
    let padding: usize = if half > 1 { half - 1 } else { 0 };
    let mut line = String::from_str("~");
    proof {
        reveal_strlit("~");
        assert(line@ =~= seq!['~'] + spaces(0));
    }
    let mut i: usize = 0;
    while i < padding
        invariant
            i <= padding,
            line@ == seq!['~'] + spaces(i as int),
        decreases padding - i,
    {
        line.append(" ");
        proof {
            reveal_strlit(" ");
            assert(line@ =~= seq!['~'] + spaces(i as int + 1));
        }
        i += 1;
    }
    line.append(text.as_str());
    let total: usize = line.as_str().unicode_len();
    if total > limit {
        String::from_str(line.as_str().substring_char(0, limit))
    } else {
        line
    }
}

} // verus!
