use vstd::prelude::*;

verus! {

/// A text-mode attribute byte: background colour in the high nibble,
/// foreground colour in the low one.
#[derive(Debug, Clone, Copy, PartialEq, Eq, PartialOrd, Ord, Structural)]
pub struct Color(u8);

impl Color {
    pub const BLACK: u8 = 0x0;
    pub const BLUE: u8 = 0x1;
    pub const GREEN: u8 = 0x2;
    pub const CYAN: u8 = 0x3;
    pub const RED: u8 = 0x4;
    pub const MAGENTA: u8 = 0x5;
    pub const BROWN: u8 = 0x6;
    pub const LIGHT_GRAY: u8 = 0x7;
    pub const DARK_GRAY: u8 = 0x8;
    pub const LIGHT_BLUE: u8 = 0x9;
    pub const LIGHT_GREEN: u8 = 0xa;
    pub const LIGHT_CYAN: u8 = 0xb;
    pub const LIGHT_RED: u8 = 0xc;
    pub const LIGHT_MAGENTA: u8 = 0xd;
    pub const YELLOW: u8 = 0xe;
    pub const WHITE: u8 = 0xf;

    /// The attribute byte.
    pub closed spec fn byte(self) -> u8 {
        self.0
    }

    /// The attribute `back << 4 | front`; for colours below 16 that is
    /// `16 * back + front`.
    pub fn new(front: u8, back: u8) -> (r: Color)
        ensures
            r == Color::from_byte_spec((back << 4u8) | front),
            r.byte() == (back << 4u8) | front,
            front < 16 && back < 16 ==> r.byte() == 16 * back + front,
    {
        let r = Color((back << 4u8) | front);
        assert(front < 16 && back < 16 ==> (back << 4u8) | front == 16 * back + front)
            by (bit_vector);
        r
    }

    pub fn as_byte(self) -> (r: u8)
        ensures
            r == self.byte(),
    {
        self.0
    }

    /// The attribute `byte`.
    pub closed spec fn from_byte_spec(byte: u8) -> Color {
        Color(byte)
    }

    /// White on black.
    pub closed spec fn white_on_black() -> Color {
        Color(0x0F)
    }
}

impl Default for Color {
    /// White on black.
    fn default() -> (r: Self)
        ensures
            r == Color::white_on_black(),
            r.byte() == 0x0F,
    {
        Color::new(Color::WHITE, Color::BLACK)
    }
}

/// A character cell: a code point and its colours.
#[derive(Debug, Clone, Copy, PartialEq, Eq, Structural)]
pub struct Char {
    pub code_point: u8,
    pub color: Color,
}

impl Char {
    /// `code_point` in white on black.
    pub fn new(code_point: u8) -> (r: Self)
        ensures
            r == (Char { code_point, color: Color::white_on_black() }),
            r.color.byte() == 0x0F,
    {
        Char { color: Color::default(), code_point }
    }

    pub fn colored(code_point: u8, color: Color) -> (r: Self)
        ensures
            r.code_point == code_point,
            r.color == color,
    {
        Char { color, code_point }
    }
}

/// A text screen's cells, line after line.
pub struct TextBuffer {
    cells: Vec<Char>,
}

impl View for TextBuffer {
    type V = Seq<Char>;

    /// The cells, line after line: cell (line, column) is at
    /// `line * TextBuffer::WIDTH + column`.
    closed spec fn view(&self) -> Seq<Char> {
        self.cells@
    }
}

impl TextBuffer {
    /// Columns of the screen.
    pub const WIDTH: usize = 80;

    /// Lines of the screen.
    pub const HEIGHT: usize = 25;

    /// One cell per position of the screen.
    pub open spec fn wf(&self) -> bool {
        self@.len() == TextBuffer::WIDTH * TextBuffer::HEIGHT
    }

    /// A screen filled with `fill`.
    pub fn filled(fill: Char) -> (r: Self)
        ensures
            r.wf(),
            r@ == Seq::new((TextBuffer::WIDTH * TextBuffer::HEIGHT) as nat, |i: int| fill),
    {
        let mut cells: Vec<Char> = Vec::new();
        let mut i: usize = 0;
        while i < TextBuffer::WIDTH * TextBuffer::HEIGHT
            invariant
                i <= TextBuffer::WIDTH * TextBuffer::HEIGHT,
                cells@.len() == i,
                forall|j: int| 0 <= j < i ==> #[trigger] cells@[j] == fill,
            decreases TextBuffer::WIDTH * TextBuffer::HEIGHT - i,
        {
            cells.push(fill);
            i = i + 1;
        }
        assert(cells@ =~= Seq::new((TextBuffer::WIDTH * TextBuffer::HEIGHT) as nat, |i: int| fill));
        TextBuffer { cells }
    }

    /// The cell at `line`, `column`.
    pub fn get(&self, line: usize, column: usize) -> (r: Char)
        requires
            self.wf(),
            line < TextBuffer::HEIGHT,
            column < TextBuffer::WIDTH,
        ensures
            r == self@[line * TextBuffer::WIDTH + column],
    {
        self.cells[line * TextBuffer::WIDTH + column]
    }

    /// Writes the cell at `line`, `column`.
    pub fn set(&mut self, line: usize, column: usize, value: Char)
        requires
            old(self).wf(),
            line < TextBuffer::HEIGHT,
            column < TextBuffer::WIDTH,
        ensures
            final(self).wf(),
            final(self)@ == old(self)@.update(line * TextBuffer::WIDTH + column, value),
    {
        self.cells.set(line * TextBuffer::WIDTH + column, value);
    }
}

} // verus!
