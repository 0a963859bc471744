use kfs::decoder::{basic, extra, lookup, Decoder, Table, UnknownSequence};
use kfs::keyboard::{Event, KeyStatus};
use kfs::scancode::ScanCode;

type Outcome = Result<Option<Event>, UnknownSequence>;

fn feed_all(decoder: &mut Decoder, bytes: &[u8]) -> Vec<Outcome> {
    bytes.iter().map(|&b| decoder.feed(b)).collect()
}

fn pressed(scan_code: ScanCode) -> Event {
    Event { scan_code, key_status: KeyStatus::Pressed }
}

fn released(scan_code: ScanCode) -> Event {
    Event { scan_code, key_status: KeyStatus::Released }
}

#[test]
fn press_a() {
    let mut d = Decoder::new();
    assert_eq!(d.feed(0x1C), Ok(Some(pressed(ScanCode::A))));
    assert_eq!(d, Decoder::ReadNothing);
}

#[test]
fn release_a() {
    let mut d = Decoder::new();
    assert_eq!(feed_all(&mut d, &[0xF0, 0x1C]), vec![Ok(None), Ok(Some(released(ScanCode::A)))]);
    assert_eq!(d, Decoder::ReadNothing);
}

#[test]
fn press_cursor_up() {
    let mut d = Decoder::new();
    assert_eq!(feed_all(&mut d, &[0xE0, 0x75]), vec![Ok(None), Ok(Some(pressed(ScanCode::CursorUp)))]);
}

#[test]
fn release_cursor_up() {
    let mut d = Decoder::new();
    assert_eq!(
        feed_all(&mut d, &[0xE0, 0xF0, 0x75]),
        vec![Ok(None), Ok(None), Ok(Some(released(ScanCode::CursorUp)))]
    );
}

#[test]
fn press_pause() {
    let mut d = Decoder::new();
    assert_eq!(
        feed_all(&mut d, &[0xE1, 0x14, 0x77]),
        vec![Ok(None), Ok(None), Ok(Some(pressed(ScanCode::Pause)))]
    );
}

#[test]
fn release_pause() {
    let mut d = Decoder::new();
    assert_eq!(
        feed_all(&mut d, &[0xE1, 0xF0, 0x14, 0xF0, 0x77]),
        vec![Ok(None), Ok(None), Ok(None), Ok(None), Ok(Some(released(ScanCode::Pause)))]
    );
}

#[test]
fn press_print_screen() {
    let mut d = Decoder::new();
    assert_eq!(
        feed_all(&mut d, &[0xE0, 0x12, 0xE0, 0x7C]),
        vec![Ok(None), Ok(None), Ok(None), Ok(Some(pressed(ScanCode::PrintScreen)))]
    );
    assert_eq!(d, Decoder::ReadNothing);
}

#[test]
fn release_print_screen() {
    let mut d = Decoder::new();
    let out = feed_all(&mut d, &[0xE0, 0xF0, 0x7C, 0xE0, 0xF0, 0x12]);
    assert_eq!(out[..5].to_vec(), vec![Ok(None); 5]);
    assert_eq!(out[5], Ok(Some(released(ScanCode::PrintScreen))));
}

#[test]
fn print_screen_wrong_byte_at_each_step() {
    let sequence = [0xE0u8, 0x12, 0xE0, 0x7C];
    for wrong_at in 2..sequence.len() {
        let mut d = Decoder::new();
        for &b in &sequence[..wrong_at] {
            assert_eq!(d.feed(b), Ok(None));
        }
        assert_eq!(d.feed(0x00), Err(UnknownSequence));
        assert_eq!(d, Decoder::ReadNothing);
        // The decoder resynchronises on the next byte.
        assert_eq!(d.feed(0x1C), Ok(Some(pressed(ScanCode::A))));
    }
}

#[test]
fn unknown_bytes_are_rejected() {
    let mut d = Decoder::new();
    assert_eq!(d.feed(0x00), Err(UnknownSequence));
    assert_eq!(feed_all(&mut d, &[0xE0, 0x00]), vec![Ok(None), Err(UnknownSequence)]);
    assert_eq!(feed_all(&mut d, &[0xE1, 0x00]), vec![Ok(None), Err(UnknownSequence)]);
    assert_eq!(feed_all(&mut d, &[0xE1, 0x14, 0x78]), vec![Ok(None), Ok(None), Err(UnknownSequence)]);
    assert_eq!(d, Decoder::ReadNothing);
}

#[test]
fn extended_page_up_release() {
    let mut d = Decoder::new();
    assert_eq!(
        feed_all(&mut d, &[0xE0, 0xF0, 0x7D]),
        vec![Ok(None), Ok(None), Ok(Some(released(ScanCode::PageUp)))]
    );
}

#[test]
fn tables() {
    assert_eq!(basic(0x1C), Some(ScanCode::A));
    assert_eq!(basic(0x83), Some(ScanCode::F7));
    assert_eq!(basic(0x02), None);
    assert_eq!(extra(0x75), Some(ScanCode::CursorUp));
    assert_eq!(extra(0x1C), None);
    assert_eq!(lookup(Table::Extra, 0x7D), Some(ScanCode::PageUp));
    assert_eq!(lookup(Table::Basic, 0x76), Some(ScanCode::Escape));
}

#[test]
fn helper_steps() {
    let mut d = Decoder::ReadE0;
    assert_eq!(d.transition(0x14, 0x14, Decoder::ReadE114), Ok(None));
    assert_eq!(d, Decoder::ReadE114);
    assert_eq!(d.transition(0x14, 0x15, Decoder::ReadE114), Err(UnknownSequence));
    assert_eq!(d, Decoder::ReadNothing);
    assert_eq!(d.decode_released(0x1C, Table::Basic), Ok(Some(released(ScanCode::A))));
    assert_eq!(d.decode_pressed(0x02, Table::Basic), Err(UnknownSequence));
    assert_eq!(d.incomplete(Decoder::ReadF0), Ok(None));
    assert_eq!(d, Decoder::ReadF0);
    assert_eq!(d.unknown(), Err(UnknownSequence));
    assert_eq!(d.pressed(ScanCode::Q), Ok(Some(pressed(ScanCode::Q))));
    assert_eq!(d.released(ScanCode::Q), Ok(Some(released(ScanCode::Q))));
}
