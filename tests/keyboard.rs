use kfs::keyboard::{Effect, Event, KeyStatus, Keyboard, Keymap, Layer, LayerId};
use kfs::scancode::ScanCode;

fn press(scan_code: ScanCode) -> Event {
    Event { scan_code, key_status: KeyStatus::Pressed }
}

fn release(scan_code: ScanCode) -> Event {
    Event { scan_code, key_status: KeyStatus::Released }
}

fn keymap() -> Keymap {
    let one = Layer::new(
        "base",
        &[
            (ScanCode::A, Effect::Emit("a")),
            (ScanCode::B, Effect::Emit("x")),
            (ScanCode::B, Effect::Emit("b")),
            (ScanCode::LeftShift, Effect::OnPressGotoLayer(LayerId::Two)),
        ],
    );
    let two = Layer::new(
        "shift",
        &[
            (ScanCode::A, Effect::Emit("A")),
            (ScanCode::LeftShift, Effect::OnReleaseGotoLayer(LayerId::One)),
        ],
    );
    Keymap::new("test", one, two, Layer::new("three", &[]), Layer::new("four", &[]))
}

#[test]
fn layers_and_text() {
    let mut kb = Keyboard::new(keymap());
    assert_eq!(kb.feed(press(ScanCode::A)), Some("a"));
    assert_eq!(kb.feed(release(ScanCode::A)), None);
    assert_eq!(kb.feed(press(ScanCode::B)), Some("b"));
    assert_eq!(kb.feed(press(ScanCode::LeftShift)), None);
    assert_eq!(kb.feed(press(ScanCode::A)), Some("A"));
    assert_eq!(kb.feed(press(ScanCode::B)), None);
    assert_eq!(kb.feed(release(ScanCode::LeftShift)), None);
    assert_eq!(kb.feed(press(ScanCode::A)), Some("a"));
}

#[test]
fn layer_lookup() {
    let layer = Layer::new("l", &[(ScanCode::Z, Effect::Emit("z"))]);
    assert_eq!(layer.effect(ScanCode::Z), Effect::Emit("z"));
    assert_eq!(layer.effect(ScanCode::Y), Effect::Ignore);
    let km = keymap();
    assert_eq!(km.index(LayerId::Two).effect(ScanCode::A), Effect::Emit("A"));
    assert_eq!(LayerId::Four.index(), 3);
    assert_eq!(LayerId::default(), LayerId::One);
}

#[test]
fn scan_code_classes() {
    assert!(ScanCode::Seven.is_basic_number());
    assert!(ScanCode::KeypadSeven.is_keypad_number());
    assert!(ScanCode::KeypadSeven.is_number());
    assert!(!ScanCode::A.is_number());
    assert!(ScanCode::Q.is_letter());
    assert!(!ScanCode::CursorLeft.is_letter());
    assert!(ScanCode::Star.is_basic_symbol());
    assert!(ScanCode::KeypadStar.is_keypad_symbol());
    assert!(ScanCode::Comma.is_symbol());
    assert!(!ScanCode::KeypadEnter.is_symbol());
    assert_eq!(ScanCode::PrintScreen.index(), 127);
    assert_eq!(ScanCode::CursorLeft.index(), 37);
}

#[test]
fn scan_code_ascii() {
    assert_eq!(ScanCode::Zero.try_into_ascii(), Some(b'0'));
    assert_eq!(ScanCode::Nine.try_into_ascii(), Some(b'9'));
    assert_eq!(ScanCode::KeypadFive.try_into_ascii(), Some(b'5'));
    assert_eq!(ScanCode::A.try_into_ascii(), Some(b'A'));
    assert_eq!(ScanCode::Z.try_into_ascii(), Some(b'Z'));
    assert_eq!(ScanCode::Space.try_into_ascii(), Some(b' '));
    assert_eq!(ScanCode::KeypadMinus.try_into_ascii(), Some(b'-'));
    assert_eq!(ScanCode::SingleQuote.try_into_ascii(), Some(b'\''));
    assert_eq!(ScanCode::BackSlash.try_into_ascii(), Some(b'\\'));
    assert_eq!(ScanCode::KeypadPlus.try_into_ascii(), Some(b'+'));
    assert_eq!(ScanCode::Escape.try_into_ascii(), None);
}
