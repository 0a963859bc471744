use vstd::prelude::*;

use crate::array_ring::ArrayRing;
use crate::array_str::ArrayStr;
use crate::vga::{Char, Color, TextBuffer};

verus! {

/// Severity of a log entry.
#[derive(Debug, Clone, Copy, PartialEq, Eq, Structural)]
pub enum Level {
    Trace,
    Debug,
    Info,
    Warn,
    Error,
}

/// Longest text of an entry, in bytes.
pub const MAX_CONTENT_LENGTH: usize = 0x100;

/// Most entries that the logger keeps.
pub const MAX_ENTRY_COUNT: usize = 0x100;

/// One logged message.
pub struct Entry {
    pub level: Level,
    pub content: ArrayStr<MAX_CONTENT_LENGTH>,
}

/// The log: the latest entries, oldest first.
pub struct Logger {
    entries: ArrayRing<MAX_ENTRY_COUNT, Entry>,
}

impl View for Logger {
    type V = Seq<Entry>;

    /// The entries, oldest first.
    closed spec fn view(&self) -> Seq<Entry> {
        self.entries@
    }
}

impl Logger {
    pub closed spec fn wf(&self) -> bool {
        self.entries.wf()
    }

    pub fn new() -> (r: Self)
        ensures
            r.wf(),
            r@ == Seq::<Entry>::empty(),
    {
        Logger { entries: ArrayRing::new() }
    }

    /// Appends `entry`; when the log is full, it takes the place of the
    /// latest entry.
    pub fn register(&mut self, entry: Entry)
        requires
            old(self).wf(),
        ensures
            final(self).wf(),
            old(self)@.len() < MAX_ENTRY_COUNT ==> final(self)@ == old(self)@.push(entry),
            old(self)@.len() >= MAX_ENTRY_COUNT ==> final(self)@ == old(self)@.drop_last().push(entry),
            final(self)@.len() <= MAX_ENTRY_COUNT,
    {
        proof {
            self.entries.lemma_bounded();
        }
        if self.entries.is_full() {
            let _ = self.entries.pop_back();
        }
        let _ = self.entries.push_back(entry);
        proof {
            self.entries.lemma_bounded();
        }
    }

    /// The entries, oldest first.
    pub fn entries(&self) -> (r: Vec<&Entry>)
        requires
            self.wf(),
        ensures
            r@.len() == self@.len(),
            forall|i: int| 0 <= i < self@.len() ==> *r@[i] == self@[i],
    {
        self.entries.iter()
    }
}

/// Code of the line feed, which moves to the start of the next line.
pub const NEW_LINE: u8 = 0x0A;

/// Cursor after writing `byte` at (`line`, `column`): one column right, or
/// the start of the next line after a line feed or at the right edge; past
/// the bottom it goes back to the first line.
pub open spec fn cursor_after(line: int, column: int, byte: u8) -> (int, int) {
    let (l, c) = if byte == NEW_LINE || column + 1 >= TextBuffer::WIDTH {
        (line + 1, 0)
    } else {
        (line, column + 1)
    };
    if l >= TextBuffer::HEIGHT {
        (0, c)
    } else {
        (l, c)
    }
}

/// Cells after writing `byte` at (`line`, `column`): a line feed writes
/// nothing, any other byte fills the cell in white on black.
pub open spec fn cells_after(cells: Seq<Char>, line: int, column: int, byte: u8) -> Seq<Char> {
    if byte == NEW_LINE {
        cells
    } else {
        cells.update(
            line * TextBuffer::WIDTH + column,
            Char { code_point: byte, color: Color::white_on_black() },
        )
    }
}

/// Cursor and cells after writing `bytes` in order.
pub open spec fn logged(
    line: int,
    column: int,
    cells: Seq<Char>,
    bytes: Seq<u8>,
) -> (int, int, Seq<Char>)
    decreases bytes.len(),
{
    if bytes.len() == 0 {
        (line, column, cells)
    } else {
        let (l, c, cs) = logged(line, column, cells, bytes.drop_last());
        let (nl, nc) = cursor_after(l, c, bytes.last());
        (nl, nc, cells_after(cs, l, c, bytes.last()))
    }
}

/// Writes text straight onto a text screen, from a cursor that wraps to the
/// first line past the bottom.
pub struct VgaLogger {
    line: usize,
    column: usize,
}

impl VgaLogger {
    /// The cursor's line.
    pub closed spec fn line(&self) -> int {
        self.line as int
    }

    /// The cursor's column.
    pub closed spec fn column(&self) -> int {
        self.column as int
    }

    /// The cursor lies on the screen.
    pub open spec fn wf(&self) -> bool {
        0 <= self.line() < TextBuffer::HEIGHT && 0 <= self.column() < TextBuffer::WIDTH
    }

    /// A logger at the top left corner.
    pub fn new() -> (r: Self)
        ensures
            r.wf(),
            r.line() == 0,
            r.column() == 0,
    {
        VgaLogger { line: 0, column: 0 }
    }

    /// Writes one byte at the cursor and moves it.
    pub fn write_char(&mut self, buffer: &mut TextBuffer, to_write: u8)
        requires
            old(self).wf(),
            old(buffer).wf(),
        ensures
            final(self).wf(),
            final(buffer).wf(),
            (final(self).line(), final(self).column()) == cursor_after(
                old(self).line(),
                old(self).column(),
                to_write,
            ),
            final(buffer)@ == cells_after(old(buffer)@, old(self).line(), old(self).column(), to_write),
    {
        if to_write == NEW_LINE {
            self.column = 0;
            self.line = self.line + 1;
        } else {
            buffer.set(self.line, self.column, Char::new(to_write));
            self.column = self.column + 1;
            if self.column >= TextBuffer::WIDTH {
                self.column = 0;
                self.line = self.line + 1;
            }
        }
        if self.line >= TextBuffer::HEIGHT {
            self.line = 0;
        }
    }

    /// Writes `s` byte after byte.
    pub fn log(&mut self, buffer: &mut TextBuffer, s: &[u8])
        requires
            old(self).wf(),
            old(buffer).wf(),
        ensures
            final(self).wf(),
            final(buffer).wf(),
            (final(self).line(), final(self).column(), final(buffer)@) == logged(
                old(self).line(),
                old(self).column(),
                old(buffer)@,
                s@,
            ),
    {
        let mut i: usize = 0;
        while i < s.len()
            invariant
                self.wf(),
                buffer.wf(),
                i <= s@.len(),
                (self.line(), self.column(), buffer@) == logged(
                    old(self).line(),
                    old(self).column(),
                    old(buffer)@,
                    s@.take(i as int),
                ),
            decreases s@.len() - i,
        {
            assert(s@.take(i as int + 1).drop_last() =~= s@.take(i as int));
            self.write_char(buffer, s[i]);
            i = i + 1;
        }
        assert(s@.take(s@.len() as int) =~= s@);
    }
}

} // verus!
