use vstd::prelude::*;

use vstd::string::StringSliceAdditionalSpecFns;
use vstd::arithmetic::div_mod::{lemma_mod_add_multiples_vanish, lemma_mod_self_0, lemma_small_mod};

use crate::array_str::ArrayStr;
use crate::keyboard::{Event, KeyStatus, Keyboard};
use crate::log::{Entry, Level, Logger as Log};
use crate::scancode::ScanCode;
use crate::vga::{Char, Color, TextBuffer as Cells};

verus! {

/// A rectangle of screen cells: `width` columns from column `x`, `height`
/// lines from line `y`.
#[derive(Debug, Default, Clone, Copy, PartialEq, Eq, Structural)]
pub struct Rectangle {
    pub x: u16,
    pub y: u16,
    pub width: u16,
    pub height: u16,
}

impl Rectangle {
    /// The rectangle lies on the screen.
    pub open spec fn on_screen(self) -> bool {
        self.x + self.width <= Cells::WIDTH && self.y + self.height <= Cells::HEIGHT
    }

    /// Whether the cell at `line`, `column` lies in the rectangle.
    pub open spec fn contains(self, line: int, column: int) -> bool {
        self.y <= line < self.y + self.height && self.x <= column < self.x + self.width
    }
}

/// The screen image that widgets draw on before it is shown, with the
/// cursor's line and column.
pub struct Screen {
    chars: Cells,
    cursor_pos: (u16, u16),
}

impl Screen {
    /// Columns of the screen.
    pub const WIDTH: usize = 80;

    /// Lines of the screen.
    pub const HEIGHT: usize = 25;

    /// The cells, line after line.
    pub closed spec fn cells(&self) -> Seq<Char> {
        self.chars@
    }

    /// The cursor's line and column.
    pub closed spec fn cursor(&self) -> (u16, u16) {
        self.cursor_pos
    }

    pub open spec fn wf(&self) -> bool {
        self.cells().len() == Cells::WIDTH * Cells::HEIGHT
    }

    /// The whole screen.
    pub fn area(&self) -> (r: Rectangle)
        ensures
            r == (Rectangle { x: 0, y: 0, width: 80, height: 25 }),
    {
        Rectangle { x: 0, y: 0, width: Self::WIDTH as u16, height: Self::HEIGHT as u16 }
    }

    /// Blanks every cell.
    pub fn clear(&mut self)
        ensures
            final(self).wf(),
            final(self).cells() == Seq::new(
                (Cells::WIDTH * Cells::HEIGHT) as nat,
                |i: int| Char { code_point: 0, color: Color::white_on_black() },
            ),
            final(self).cursor() == old(self).cursor(),
    {
        self.chars = Cells::filled(Char::new(0));
    }

    /// Writes the cell at `line`, `column`.
    pub fn set_char(&mut self, line: usize, column: usize, value: Char)
        requires
            old(self).wf(),
            line < Cells::HEIGHT,
            column < Cells::WIDTH,
        ensures
            final(self).wf(),
            final(self).cells() == old(self).cells().update(line * Cells::WIDTH + column, value),
            final(self).cursor() == old(self).cursor(),
    {
        self.chars.set(line, column, value);
    }

    /// Moves the cursor.
    pub fn set_cursor(&mut self, line: u16, column: u16)
        ensures
            final(self).cells() == old(self).cells(),
            final(self).cursor() == (line, column),
    {
        self.cursor_pos = (line, column);
    }

    /// The cells, for showing them.
    pub fn chars(&self) -> (r: &Cells)
        ensures
            r@ == self.cells(),
    {
        &self.chars
    }

    pub fn cursor_pos(&self) -> (r: (u16, u16))
        ensures
            r == self.cursor(),
    {
        self.cursor_pos
    }
}

impl Default for Screen {
    /// A blank screen with the cursor at the top left corner.
    fn default() -> (r: Self)
        ensures
            r.wf(),
            r.cells() == Seq::new(
                (Cells::WIDTH * Cells::HEIGHT) as nat,
                |i: int| Char { code_point: 0, color: Color::white_on_black() },
            ),
            r.cursor() == (0u16, 0u16),
    {
        Screen { chars: Cells::filled(Char::new(0)), cursor_pos: (0, 0) }
    }
}

/// The colours of an entry of level `level`, by attribute byte.
pub open spec fn theme_byte(level: Level) -> u8 {
    match level {
        Level::Trace => 0x09,
        Level::Debug => 0x0A,
        Level::Info => 0x0E,
        Level::Warn => 0x0C,
        Level::Error => 0x04,
    }
}

/// The colours of an entry of level `level`, on black.
pub fn theme(level: Level) -> (r: Color)
    ensures
        r == Color::from_byte_spec(theme_byte(level)),
        r.byte() == theme_byte(level),
{
    match level {
        Level::Trace => Color::new(Color::LIGHT_BLUE, Color::BLACK),
        Level::Debug => Color::new(Color::LIGHT_GREEN, Color::BLACK),
        Level::Info => Color::new(Color::YELLOW, Color::BLACK),
        Level::Warn => Color::new(Color::LIGHT_RED, Color::BLACK),
        Level::Error => Color::new(Color::RED, Color::BLACK),
    }
}

/// Cells after drawing the first `n` of `bytes` in `color` from column `x`
/// of `line`.
pub open spec fn row_drawn(
    cells: Seq<Char>,
    bytes: Seq<u8>,
    color: Color,
    line: int,
    x: int,
    n: int,
) -> Seq<Char>
    decreases n,
{
    if n <= 0 {
        cells
    } else {
        row_drawn(cells, bytes, color, line, x, n - 1).update(
            line * Cells::WIDTH + x + n - 1,
            Char { code_point: bytes[n - 1], color },
        )
    }
}

/// Cells after drawing the `n` latest entries, the latest on the area's
/// bottom row and each older one a row higher, each cut to the area's width
/// and in its level's colours.
pub open spec fn log_drawn(
    cells: Seq<Char>,
    entries: Seq<Entry>,
    area: Rectangle,
    n: int,
) -> Seq<Char>
    decreases n,
{
    if n <= 0 {
        cells
    } else {
        let k = n - 1;
        let entry = entries[entries.len() - 1 - k];
        let shown = if entry.content@.len() < area.width {
            entry.content@.len() as int
        } else {
            area.width as int
        };
        row_drawn(
            log_drawn(cells, entries, area, k),
            entry.content@,
            Color::from_byte_spec(theme_byte(entry.level)),
            area.y + area.height - 1 - k,
            area.x as int,
            shown,
        )
    }
}

/// The log widget: the latest entries of the log, latest at the bottom.
pub struct Logger;

impl Logger {
    /// Draws the latest entries of `log` that fit in `area`.
    pub fn render(&self, log: &Log, screen: &mut Screen, area: Rectangle)
        requires
            log.wf(),
            old(screen).wf(),
            area.on_screen(),
        ensures
            final(screen).wf(),
            final(screen).cursor() == old(screen).cursor(),
            final(screen).cells() == log_drawn(
                old(screen).cells(),
                log@,
                area,
                if log@.len() < area.height {
                    log@.len() as int
                } else {
                    area.height as int
                },
            ),
    {
        let entries = log.entries();
        let n = entries.len();
        let mut k: usize = 0;
        while k < area.height as usize && k < n
            invariant
                screen.wf(),
                area.on_screen(),
                n == log@.len(),
                entries@.len() == n,
                forall|i: int| 0 <= i < n ==> *entries@[i] == log@[i],
                k <= area.height,
                k <= n,
                screen.cursor() == old(screen).cursor(),
                screen.cells() == log_drawn(old(screen).cells(), log@, area, k as int),
            decreases n - k,
        {
            let entry = entries[n - 1 - k];
            let line = area.y as usize + area.height as usize - 1 - k;
            let bytes = entry.content.as_bytes();
            let color = theme(entry.level);
            let ghost start = screen.cells();
            let mut c: usize = 0;
            while c < area.width as usize && c < bytes.len()
                invariant
                    screen.wf(),
                    area.on_screen(),
                    line < Cells::HEIGHT,
                    c <= area.width,
                    c <= bytes@.len(),
                    screen.cursor() == old(screen).cursor(),
                    screen.cells() == row_drawn(start, bytes@, color, line as int, area.x as int, c as int),
                decreases bytes@.len() - c,
            {
                screen.set_char(line, area.x as usize + c, Char::colored(bytes[c], color));
                c = c + 1;
            }
            k = k + 1;
        }
    }
}

/// Longest text of the text editor widget, in bytes.
pub const TEXT_MAX_LEN: usize = 0x100;

/// Code of the line feed.
pub const NEW_LINE: u8 = 0x0A;

/// Row and column, within the area, at which byte `n` of `text` is laid
/// out: each byte takes the next column, and a line feed or the right edge
/// of an area `width` columns wide starts the next row.
pub open spec fn text_position(text: Seq<u8>, width: int, n: int) -> (int, int)
    decreases n,
{
    if n <= 0 {
        (0, 0)
    } else {
        let (row, column) = text_position(text, width, n - 1);
        if text[n - 1] == NEW_LINE || column + 1 >= width {
            (row + 1, 0)
        } else {
            (row, column + 1)
        }
    }
}

/// Cursor after a byte was drawn at `line`, `column`: on the next cell,
/// at the start of the next line after the right edge, and never below the
/// last line.
pub open spec fn cursor_after_draw(line: int, column: int) -> (u16, u16) {
    let (l, c) = if column + 1 >= Cells::WIDTH {
        (line + 1, 0)
    } else {
        (line, column + 1)
    };
    if l >= Cells::HEIGHT {
        ((Cells::HEIGHT - 1) as u16, c as u16)
    } else {
        (l as u16, c as u16)
    }
}

/// Cells and cursor after drawing the first `n` bytes of `text` in `area`:
/// line feeds and bytes laid out below the area are not drawn.
pub open spec fn text_drawn(
    cells: Seq<Char>,
    cursor: (u16, u16),
    text: Seq<u8>,
    area: Rectangle,
    n: int,
) -> (Seq<Char>, (u16, u16))
    decreases n,
{
    if n <= 0 {
        (cells, cursor)
    } else {
        let (cs, cur) = text_drawn(cells, cursor, text, area, n - 1);
        let (row, column) = text_position(text, area.width as int, n - 1);
        if text[n - 1] == NEW_LINE || area.width == 0 || row >= area.height {
            (cs, cur)
        } else {
            let line = area.y + row;
            let col = area.x + column;
            (
                cs.update(
                    line * Cells::WIDTH + col,
                    Char { code_point: text[n - 1], color: Color::white_on_black() },
                ),
                cursor_after_draw(line, col),
            )
        }
    }
}

/// Bounds of the text layout: a byte is laid out inside the area's width
/// and at most one row per byte down.
proof fn lemma_text_position_bounds(text: Seq<u8>, width: int, n: int)
    requires
        width > 0,
        n >= 0,
    ensures
        0 <= text_position(text, width, n).1 < width,
        0 <= text_position(text, width, n).0 <= n,
    decreases n,
{
    if n > 0 {
        lemma_text_position_bounds(text, width, n - 1);
    }
}

/// A text editor widget: the text typed on its keyboard.
pub struct TextBuffer {
    keyboard: Keyboard,
    content: ArrayStr<TEXT_MAX_LEN>,
}

impl TextBuffer {
    pub const MAX_LEN: usize = 0x100;

    /// The text typed so far.
    pub closed spec fn text(&self) -> Seq<u8> {
        self.content@
    }

    /// The keyboard that types.
    pub closed spec fn keys(&self) -> &Keyboard {
        &self.keyboard
    }

    pub fn new(keyboard: Keyboard) -> (r: Self)
        requires
            keyboard.wf(),
        ensures
            r.ready(),
            r.text() == Seq::<u8>::empty(),
            *r.keys() == keyboard,
    {
        TextBuffer { keyboard, content: ArrayStr::new() }
    }

    /// Feeds the event to the keyboard and appends the text it emits, when
    /// the whole of it fits.
    pub fn update(&mut self, event: Event)
        requires
            old(self).ready(),
        ensures
            final(self).ready(),
            final(self).keys().layer() == old(self).keys().layer_after(event),
            *final(self).keys().keymap() == *old(self).keys().keymap(),
            final(self).text() == match old(self).keys().emitted(event) {
                Some(text) => if old(self).text().len() + text.spec_bytes().len() <= TEXT_MAX_LEN {
                    old(self).text() + text.spec_bytes()
                } else {
                    old(self).text()
                },
                None => old(self).text(),
            },
    {
        if let Some(text) = self.keyboard.feed(event) {
            let _ = self.content.push_str(text);
        }
    }

    /// Draws the text from the top left corner of `area`, a row at a time,
    /// and leaves the cursor after the last byte drawn.
    pub fn render(&self, screen: &mut Screen, area: Rectangle)
        requires
            self.ready(),
            old(screen).wf(),
            area.on_screen(),
        ensures
            final(screen).wf(),
            (final(screen).cells(), final(screen).cursor()) == text_drawn(
                old(screen).cells(),
                old(screen).cursor(),
                self.text(),
                area,
                self.text().len() as int,
            ),
    {
        let content = self.content.as_bytes();
        proof {
            self.content.lemma_bounded();
        }
        let mut i: usize = 0;
        let mut row: usize = 0;
        let mut column: usize = 0;
        while i < content.len()
            invariant
                screen.wf(),
                area.on_screen(),
                content@ == self.text(),
                content@.len() <= TEXT_MAX_LEN,
                i <= content@.len(),
                area.width > 0 ==> (row as int, column as int) == text_position(content@, area.width as int, i as int),
                row <= i,
                (screen.cells(), screen.cursor()) == text_drawn(
                    old(screen).cells(),
                    old(screen).cursor(),
                    content@,
                    area,
                    i as int,
                ),
            decreases content@.len() - i,
        {
            let byte = content[i];
            if area.width > 0 {
                proof {
                    lemma_text_position_bounds(content@, area.width as int, i as int);
                }
                if byte == NEW_LINE {
                    row = row + 1;
                    column = 0;
                } else {
                    if row < area.height as usize {
                        let line = area.y as usize + row;
                        let col = area.x as usize + column;
                        screen.set_char(line, col, Char::new(byte));
                        let mut cursor_line = line;
                        let mut cursor_column = col + 1;
                        if Screen::WIDTH <= cursor_column {
                            cursor_column = 0;
                            cursor_line = cursor_line + 1;
                        }
                        if Screen::HEIGHT <= cursor_line {
                            cursor_line = Screen::HEIGHT - 1;
                        }
                        screen.set_cursor(cursor_line as u16, cursor_column as u16);
                    }
                    if column + 1 >= area.width as usize {
                        row = row + 1;
                        column = 0;
                    } else {
                        column = column + 1;
                    }
                }
            }
            i = i + 1;
        }
    }

    /// The text's bytes.
    pub fn content(&self) -> (r: &[u8])
        ensures
            r@ == self.text(),
    {
        self.content.as_bytes()
    }
}

/// Something drawn on the screen that reacts to events.
pub trait Widget {
    type Event;

    /// The widget's own invariant.
    spec fn ready(&self) -> bool;

    /// Draws the widget inside `area`.
    fn render(&self, screen: &mut Screen, area: Rectangle)
        requires
            self.ready(),
            old(screen).wf(),
            area.on_screen(),
        ensures
            final(screen).wf(),
    ;

    /// Handles one event.
    fn update(&mut self, event: Self::Event)
        requires
            old(self).ready(),
        ensures
            final(self).ready(),
    ;
}

/// A row of widgets of which one is shown at a time; F1 and F2 switch to
/// the previous and the next one.
pub struct MultiScreen<const COUNT: usize, S> {
    current: usize,
    screens: [S; COUNT],
}

impl<const COUNT: usize, S> MultiScreen<COUNT, S> {
    /// The position of the widget shown.
    pub closed spec fn current(&self) -> int {
        self.current as int
    }

    /// The widgets.
    pub closed spec fn screens(&self) -> Seq<S> {
        self.screens@
    }

    pub open spec fn wf(&self) -> bool {
        0 <= self.current() < COUNT && self.screens().len() == COUNT
    }

    /// Shows the first of `widgets`, of which there must be at least one.
    pub fn new(widgets: [S; COUNT]) -> (r: Self)
        requires
            0 < COUNT,
        ensures
            r.wf(),
            r.current() == 0,
            r.screens() == widgets@,
    {
        MultiScreen { current: 0, screens: widgets }
    }

    /// The widget shown.
    pub fn current_screen(&self) -> (r: &S)
        requires
            self.wf(),
        ensures
            *r == self.screens()[self.current()],
    {
        &self.screens[self.current]
    }

    /// The widget shown, for changing it.
    pub fn current_screen_mut(&mut self) -> (r: &mut S)
        requires
            old(self).wf(),
        ensures
            *r == old(self).screens()[old(self).current()],
            final(self).current() == old(self).current(),
            final(self).screens() == old(self).screens().update(old(self).current(), *final(r)),
    {
        &mut self.screens[self.current]
    }

    /// Shows the previous widget, the last one after the first.
    pub fn previous(&mut self)
        requires
            old(self).wf(),
        ensures
            final(self).wf(),
            final(self).screens() == old(self).screens(),
            final(self).current() == (old(self).current() + COUNT - 1) % (COUNT as int),
    {
        let ghost c = self.current as int;
        self.current = if self.current == 0 {
            COUNT - 1
        } else {
            self.current - 1
        };
        proof {
            if c == 0 {
                lemma_small_mod((COUNT - 1) as nat, COUNT as nat);
            } else {
                lemma_mod_add_multiples_vanish(c - 1, COUNT as int);
                lemma_small_mod((c - 1) as nat, COUNT as nat);
            }
        }
    }

    /// Shows the next widget, the first one after the last.
    pub fn next(&mut self)
        requires
            old(self).wf(),
        ensures
            final(self).wf(),
            final(self).screens() == old(self).screens(),
            final(self).current() == (old(self).current() + 1) % (COUNT as int),
    {
        let ghost c = self.current as int;
        self.current = if self.current + 1 == COUNT {
            0
        } else {
            self.current + 1
        };
        proof {
            if c + 1 == COUNT {
                lemma_mod_self_0(COUNT as int);
            } else {
                lemma_small_mod((c + 1) as nat, COUNT as nat);
            }
        }
    }

    /// Handles the switching keys: a press of F1 or F2 moves to the
    /// previous or next widget and is consumed; any other event is handed
    /// back for the widget shown.
    pub fn update(&mut self, event: Event) -> (r: Option<Event>)
        requires
            old(self).wf(),
        ensures
            final(self).wf(),
            final(self).screens() == old(self).screens(),
            event == (Event { scan_code: ScanCode::F1, key_status: KeyStatus::Pressed }) ==> r is None
                && final(self).current() == (old(self).current() + COUNT - 1) % (COUNT as int),
            event == (Event { scan_code: ScanCode::F2, key_status: KeyStatus::Pressed }) ==> r is None
                && final(self).current() == (old(self).current() + 1) % (COUNT as int),
            !(event.key_status == KeyStatus::Pressed && (event.scan_code == ScanCode::F1
                || event.scan_code == ScanCode::F2)) ==> r == Some(event) && final(self).current()
                == old(self).current(),
    {
        match event {
            Event { key_status: KeyStatus::Pressed, scan_code: ScanCode::F1 } => {
                self.previous();
                None
            },
            Event { key_status: KeyStatus::Pressed, scan_code: ScanCode::F2 } => {
                self.next();
                None
            },
            not_captured => Some(not_captured),
        }
    }
}

impl<const COUNT: usize, S: Widget<Event = Event>> Widget for MultiScreen<COUNT, S> {
    type Event = Event;

    /// A widget is shown and every widget is ready.
    open spec fn ready(&self) -> bool {
        &&& self.wf()
        &&& forall|i: int| 0 <= i < COUNT ==> #[trigger] self.screens()[i].ready()
    }

    /// Draws the widget shown.
    fn render(&self, screen: &mut Screen, area: Rectangle) {
        self.screens[self.current].render(screen, area);
    }

    /// Switches on F1 and F2; hands any other event to the widget shown.
    fn update(&mut self, event: Event) {
        if let Some(not_captured) = MultiScreen::update(self, event) {
            let i = self.current;
            let ghost before = self.screens@;
            self.screens[i].update(not_captured);
            assert forall|j: int| 0 <= j < COUNT implies #[trigger] self.screens()[j].ready() by {
                if j != i {
                    assert(self.screens@[j] == before[j]);
                }
            }
        }
    }
}

impl Widget for TextBuffer {
    type Event = Event;

    fn render(&self, screen: &mut Screen, area: Rectangle) {
        TextBuffer::render(self, screen, area);
    }

    closed spec fn ready(&self) -> bool {
        self.keys().wf() && self.content.wf()
    }

    fn update(&mut self, event: Event) {
        TextBuffer::update(self, event);
    }
}

} // verus!
