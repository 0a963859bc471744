use kfs::array_str::ArrayStr;
use kfs::keyboard::{Effect, Event, KeyStatus, Keyboard, Keymap, Layer};
use kfs::log::{Entry, Level, Logger as Log, VgaLogger};
use kfs::scancode::ScanCode;
use kfs::tui::{theme, Logger, MultiScreen, Rectangle, Screen, TextBuffer, Widget};
use kfs::vga::{Char, Color, TextBuffer as Cells};

fn cell(cells: &Cells, line: usize, column: usize) -> Char {
    cells.get(line, column)
}

fn entry(level: Level, text: &str) -> Entry {
    let mut content = ArrayStr::new();
    content.push_str(text).unwrap();
    Entry { level, content }
}

fn typing_keyboard() -> Keyboard {
    let one = Layer::new(
        "base",
        &[
            (ScanCode::H, Effect::Emit("h")),
            (ScanCode::I, Effect::Emit("i")),
            (ScanCode::Enter, Effect::Emit("\n")),
        ],
    );
    Keyboard::new(Keymap::new("k", one, Layer::new("2", &[]), Layer::new("3", &[]), Layer::new("4", &[])))
}

fn press(scan_code: ScanCode) -> Event {
    Event { scan_code, key_status: KeyStatus::Pressed }
}

#[test]
fn colors() {
    assert_eq!(Color::new(Color::WHITE, Color::BLACK).as_byte(), 0x0F);
    assert_eq!(Color::new(Color::YELLOW, Color::BLUE).as_byte(), 0x1E);
    assert_eq!(Color::default().as_byte(), 0x0F);
    assert_eq!(Char::new(b'x'), Char::colored(b'x', Color::default()));
    assert_eq!(theme(Level::Trace).as_byte(), 0x09);
    assert_eq!(theme(Level::Debug).as_byte(), 0x0A);
    assert_eq!(theme(Level::Info).as_byte(), 0x0E);
    assert_eq!(theme(Level::Warn).as_byte(), 0x0C);
    assert_eq!(theme(Level::Error).as_byte(), 0x04);
}

#[test]
fn log_keeps_latest_entries() {
    let mut log = Log::new();
    for i in 0..300u32 {
        log.register(entry(Level::Info, &i.to_string()));
    }
    let entries = log.entries();
    assert_eq!(entries.len(), 256);
    assert_eq!(entries[0].content.as_bytes(), b"0");
    assert_eq!(entries[254].content.as_bytes(), b"254");
    assert_eq!(entries[255].content.as_bytes(), b"299");
}

#[test]
fn vga_logger_wraps() {
    let mut cells = Cells::filled(Char::new(0));
    let mut logger = VgaLogger::new();
    logger.log(&mut cells, b"ab\ncd");
    assert_eq!(cell(&cells, 0, 0), Char::new(b'a'));
    assert_eq!(cell(&cells, 0, 1), Char::new(b'b'));
    assert_eq!(cell(&cells, 0, 2), Char::new(0));
    assert_eq!(cell(&cells, 1, 0), Char::new(b'c'));
    let long = vec![b'z'; 78 + 23 * 80];
    logger.log(&mut cells, &long);
    assert_eq!(cell(&cells, 24, 79), Char::new(b'z'));
    logger.log(&mut cells, b"!");
    assert_eq!(cell(&cells, 0, 0), Char::new(b'!'));
}

#[test]
fn screen_basics() {
    let mut screen = Screen::default();
    assert_eq!(screen.area(), Rectangle { x: 0, y: 0, width: 80, height: 25 });
    screen.set_char(3, 4, Char::new(b'q'));
    assert_eq!(cell(screen.chars(), 3, 4), Char::new(b'q'));
    screen.clear();
    assert_eq!(cell(screen.chars(), 3, 4), Char::new(0));
    assert_eq!(screen.cursor_pos(), (0, 0));
}

#[test]
fn log_widget_draws_latest_at_bottom() {
    let mut log = Log::new();
    log.register(entry(Level::Error, "old"));
    log.register(entry(Level::Warn, "newer"));
    log.register(entry(Level::Debug, "latest"));
    let mut screen = Screen::default();
    let area = Rectangle { x: 2, y: 1, width: 4, height: 2 };
    Logger.render(&log, &mut screen, area);
    let cells = screen.chars();
    assert_eq!(cell(cells, 2, 2), Char::colored(b'l', theme(Level::Debug)));
    assert_eq!(cell(cells, 2, 5), Char::colored(b'e', theme(Level::Debug)));
    assert_eq!(cell(cells, 2, 6), Char::new(0));
    assert_eq!(cell(cells, 1, 2), Char::colored(b'n', theme(Level::Warn)));
    assert_eq!(cell(cells, 0, 2), Char::new(0));
}

#[test]
fn text_widget_types_and_draws() {
    let mut text = TextBuffer::new(typing_keyboard());
    for key in [ScanCode::H, ScanCode::I, ScanCode::Enter, ScanCode::I] {
        text.update(press(key));
    }
    text.update(Event { scan_code: ScanCode::H, key_status: KeyStatus::Released });
    assert_eq!(text.content(), b"hi\ni");
    let mut screen = Screen::default();
    text.render(&mut screen, Rectangle { x: 10, y: 5, width: 20, height: 3 });
    let cells = screen.chars();
    assert_eq!(cell(cells, 5, 10), Char::new(b'h'));
    assert_eq!(cell(cells, 5, 11), Char::new(b'i'));
    assert_eq!(cell(cells, 6, 10), Char::new(b'i'));
    assert_eq!(screen.cursor_pos(), (6, 11));
}

#[test]
fn text_widget_wraps_at_area_edge() {
    let mut text = TextBuffer::new(typing_keyboard());
    for _ in 0..5 {
        text.update(press(ScanCode::H));
    }
    let mut screen = Screen::default();
    text.render(&mut screen, Rectangle { x: 0, y: 0, width: 2, height: 2 });
    let cells = screen.chars();
    assert_eq!(cell(cells, 0, 1), Char::new(b'h'));
    assert_eq!(cell(cells, 1, 1), Char::new(b'h'));
    assert_eq!(cell(cells, 2, 0), Char::new(0));
    assert_eq!(screen.cursor_pos(), (1, 2));
}

#[test]
fn multi_screen_switches() {
    let mut multi = MultiScreen::new([TextBuffer::new(typing_keyboard()), TextBuffer::new(typing_keyboard())]);
    assert_eq!(multi.update(press(ScanCode::F1)), None);
    assert_eq!(multi.update(press(ScanCode::F2)), None);
    assert_eq!(multi.update(press(ScanCode::H)), Some(press(ScanCode::H)));
    let released_f1 = Event { scan_code: ScanCode::F1, key_status: KeyStatus::Released };
    assert_eq!(multi.update(released_f1), Some(released_f1));
    Widget::update(&mut multi, press(ScanCode::H));
    multi.next();
    Widget::update(&mut multi, press(ScanCode::I));
    multi.previous();
    let mut screen = Screen::default();
    Widget::render(&multi, &mut screen, Rectangle { x: 0, y: 0, width: 80, height: 25 });
    assert_eq!(cell(screen.chars(), 0, 0), Char::new(b'h'));
    assert_eq!(cell(screen.chars(), 0, 1), Char::new(0));
    multi.next();
    let mut screen = Screen::default();
    Widget::render(&multi, &mut screen, Rectangle { x: 0, y: 0, width: 80, height: 25 });
    assert_eq!(cell(screen.chars(), 0, 0), Char::new(b'i'));
}
