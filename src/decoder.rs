use vstd::prelude::*;

use crate::keyboard::{Event, KeyStatus};
use crate::scancode::ScanCode;

verus! {

/// Position of the scan-code decoder in its escape sequences. Each variant
/// names the bytes read since the last complete sequence; `ReadNothing` is
/// the ground state.
#[derive(Debug, Clone, Copy, PartialEq, Eq, Structural)]
pub enum Decoder {
    ReadNothing,
    ReadE0,
    ReadF0,
    ReadE012,
    ReadE012E0,
    ReadE0F0,
    ReadE0F07C,
    ReadE0F07CE0,
    ReadE0F07CE0F0,
    // Only the pause key starts with 0xE1.
    ReadE1,
    ReadE114,
    ReadE1F0,
    ReadE1F014,
    ReadE1F014F0,
}

/// The bytes fed since the ground state form no known sequence.
#[derive(Debug, Clone, Copy, PartialEq, Eq, Structural)]
pub struct UnknownSequence;

/// What one byte yields: an event, nothing yet, or a decoding error.
pub type DecoderResult = Result<Option<Event>, UnknownSequence>;

/// The two lookup tables of scan-code set 2.
#[derive(Debug, Clone, Copy, PartialEq, Eq, Structural)]
pub enum Table {
    /// Bytes with no `0xE0` prefix.
    Basic,
    /// Bytes after an `0xE0` prefix.
    Extra,
}

/// Key of a byte that no prefix introduced.
pub open spec fn basic_key(byte: u8) -> Option<ScanCode> {
    match byte {
        0x01 => Some(ScanCode::F9),
        0x03 => Some(ScanCode::F5),
        0x04 => Some(ScanCode::F3),
        0x05 => Some(ScanCode::F1),
        0x06 => Some(ScanCode::F2),
        0x07 => Some(ScanCode::F12),
        0x09 => Some(ScanCode::F10),
        0x0A => Some(ScanCode::F8),
        0x0B => Some(ScanCode::F6),
        0x0C => Some(ScanCode::F4),
        0x0D => Some(ScanCode::Tab),
        0x0E => Some(ScanCode::BackTick),
        0x11 => Some(ScanCode::LeftAlt),
        0x12 => Some(ScanCode::LeftShift),
        0x14 => Some(ScanCode::LeftControl),
        0x15 => Some(ScanCode::Q),
        0x16 => Some(ScanCode::One),
        0x1A => Some(ScanCode::Z),
        0x1B => Some(ScanCode::S),
        0x1C => Some(ScanCode::A),
        0x1D => Some(ScanCode::W),
        0x1E => Some(ScanCode::Two),
        0x21 => Some(ScanCode::C),
        0x22 => Some(ScanCode::X),
        0x23 => Some(ScanCode::D),
        0x24 => Some(ScanCode::E),
        0x25 => Some(ScanCode::Four),
        0x26 => Some(ScanCode::Three),
        0x29 => Some(ScanCode::Space),
        0x2A => Some(ScanCode::V),
        0x2B => Some(ScanCode::F),
        0x2C => Some(ScanCode::T),
        0x2D => Some(ScanCode::R),
        0x2E => Some(ScanCode::Five),
        0x31 => Some(ScanCode::N),
        0x32 => Some(ScanCode::B),
        0x33 => Some(ScanCode::H),
        0x34 => Some(ScanCode::G),
        0x35 => Some(ScanCode::Y),
        0x36 => Some(ScanCode::Six),
        0x3A => Some(ScanCode::M),
        0x3B => Some(ScanCode::J),
        0x3C => Some(ScanCode::U),
        0x3D => Some(ScanCode::Seven),
        0x3E => Some(ScanCode::Eight),
        0x41 => Some(ScanCode::Comma),
        0x42 => Some(ScanCode::K),
        0x43 => Some(ScanCode::I),
        0x44 => Some(ScanCode::O),
        0x45 => Some(ScanCode::Zero),
        0x46 => Some(ScanCode::Nine),
        0x49 => Some(ScanCode::Dot),
        0x4A => Some(ScanCode::Slash),
        0x4B => Some(ScanCode::L),
        0x4C => Some(ScanCode::SemiColon),
        0x4D => Some(ScanCode::P),
        0x4E => Some(ScanCode::Minus),
        0x52 => Some(ScanCode::SingleQuote),
        0x54 => Some(ScanCode::LeftBracket),
        0x55 => Some(ScanCode::Equal),
        0x58 => Some(ScanCode::CapsLock),
        0x59 => Some(ScanCode::RightShift),
        0x5A => Some(ScanCode::Enter),
        0x5B => Some(ScanCode::RightBracket),
        0x5D => Some(ScanCode::BackSlash),
        0x66 => Some(ScanCode::Backspace),
        0x69 => Some(ScanCode::KeypadOne),
        0x6B => Some(ScanCode::KeypadFour),
        0x6C => Some(ScanCode::KeypadSeven),
        0x70 => Some(ScanCode::KeypadZero),
        0x71 => Some(ScanCode::KeypadDot),
        0x72 => Some(ScanCode::KeypadTwo),
        0x73 => Some(ScanCode::KeypadFive),
        0x74 => Some(ScanCode::KeypadSix),
        0x75 => Some(ScanCode::KeypadEight),
        0x76 => Some(ScanCode::Escape),
        0x77 => Some(ScanCode::NumberLock),
        0x78 => Some(ScanCode::F11),
        0x79 => Some(ScanCode::KeypadPlus),
        0x7A => Some(ScanCode::KeypadThree),
        0x7B => Some(ScanCode::KeypadMinus),
        0x7C => Some(ScanCode::KeypadStar),
        0x7D => Some(ScanCode::KeypadNine),
        0x7E => Some(ScanCode::ScrollLock),
        0x83 => Some(ScanCode::F7),
        _ => None,
    }
}

pub fn basic(byte: u8) -> (r: Option<ScanCode>)
    ensures
        r == basic_key(byte),
{
    match byte {
        0x01 => Some(ScanCode::F9),
        0x03 => Some(ScanCode::F5),
        0x04 => Some(ScanCode::F3),
        0x05 => Some(ScanCode::F1),
        0x06 => Some(ScanCode::F2),
        0x07 => Some(ScanCode::F12),
        0x09 => Some(ScanCode::F10),
        0x0A => Some(ScanCode::F8),
        0x0B => Some(ScanCode::F6),
        0x0C => Some(ScanCode::F4),
        0x0D => Some(ScanCode::Tab),
        0x0E => Some(ScanCode::BackTick),
        0x11 => Some(ScanCode::LeftAlt),
        0x12 => Some(ScanCode::LeftShift),
        0x14 => Some(ScanCode::LeftControl),
        0x15 => Some(ScanCode::Q),
        0x16 => Some(ScanCode::One),
        0x1A => Some(ScanCode::Z),
        0x1B => Some(ScanCode::S),
        0x1C => Some(ScanCode::A),
        0x1D => Some(ScanCode::W),
        0x1E => Some(ScanCode::Two),
        0x21 => Some(ScanCode::C),
        0x22 => Some(ScanCode::X),
        0x23 => Some(ScanCode::D),
        0x24 => Some(ScanCode::E),
        0x25 => Some(ScanCode::Four),
        0x26 => Some(ScanCode::Three),
        0x29 => Some(ScanCode::Space),
        0x2A => Some(ScanCode::V),
        0x2B => Some(ScanCode::F),
        0x2C => Some(ScanCode::T),
        0x2D => Some(ScanCode::R),
        0x2E => Some(ScanCode::Five),
        0x31 => Some(ScanCode::N),
        0x32 => Some(ScanCode::B),
        0x33 => Some(ScanCode::H),
        0x34 => Some(ScanCode::G),
        0x35 => Some(ScanCode::Y),
        0x36 => Some(ScanCode::Six),
        0x3A => Some(ScanCode::M),
        0x3B => Some(ScanCode::J),
        0x3C => Some(ScanCode::U),
        0x3D => Some(ScanCode::Seven),
        0x3E => Some(ScanCode::Eight),
        0x41 => Some(ScanCode::Comma),
        0x42 => Some(ScanCode::K),
        0x43 => Some(ScanCode::I),
        0x44 => Some(ScanCode::O),
        0x45 => Some(ScanCode::Zero),
        0x46 => Some(ScanCode::Nine),
        0x49 => Some(ScanCode::Dot),
        0x4A => Some(ScanCode::Slash),
        0x4B => Some(ScanCode::L),
        0x4C => Some(ScanCode::SemiColon),
        0x4D => Some(ScanCode::P),
        0x4E => Some(ScanCode::Minus),
        0x52 => Some(ScanCode::SingleQuote),
        0x54 => Some(ScanCode::LeftBracket),
        0x55 => Some(ScanCode::Equal),
        0x58 => Some(ScanCode::CapsLock),
        0x59 => Some(ScanCode::RightShift),
        0x5A => Some(ScanCode::Enter),
        0x5B => Some(ScanCode::RightBracket),
        0x5D => Some(ScanCode::BackSlash),
        0x66 => Some(ScanCode::Backspace),
        0x69 => Some(ScanCode::KeypadOne),
        0x6B => Some(ScanCode::KeypadFour),
        0x6C => Some(ScanCode::KeypadSeven),
        0x70 => Some(ScanCode::KeypadZero),
        0x71 => Some(ScanCode::KeypadDot),
        0x72 => Some(ScanCode::KeypadTwo),
        0x73 => Some(ScanCode::KeypadFive),
        0x74 => Some(ScanCode::KeypadSix),
        0x75 => Some(ScanCode::KeypadEight),
        0x76 => Some(ScanCode::Escape),
        0x77 => Some(ScanCode::NumberLock),
        0x78 => Some(ScanCode::F11),
        0x79 => Some(ScanCode::KeypadPlus),
        0x7A => Some(ScanCode::KeypadThree),
        0x7B => Some(ScanCode::KeypadMinus),
        0x7C => Some(ScanCode::KeypadStar),
        0x7D => Some(ScanCode::KeypadNine),
        0x7E => Some(ScanCode::ScrollLock),
        0x83 => Some(ScanCode::F7),
        _ => None,
    }
}

/// Key of a byte introduced by the `0xE0` prefix.
pub open spec fn extra_key(byte: u8) -> Option<ScanCode> {
    match byte {
        0x10 => Some(ScanCode::WebSearch),
        0x11 => Some(ScanCode::RightAlt),
        0x14 => Some(ScanCode::RightControl),
        0x15 => Some(ScanCode::PreviousTrack),
        0x18 => Some(ScanCode::WebFavorites),
        0x1F => Some(ScanCode::LeftGUI),
        0x20 => Some(ScanCode::WebRefresh),
        0x21 => Some(ScanCode::VolumeDown),
        0x23 => Some(ScanCode::Mute),
        0x27 => Some(ScanCode::RightGUI),
        0x28 => Some(ScanCode::WebStop),
        0x2B => Some(ScanCode::Calculator),
        0x2F => Some(ScanCode::Apps),
        0x30 => Some(ScanCode::WebForward),
        0x32 => Some(ScanCode::VolumeUp),
        0x34 => Some(ScanCode::PlayPause),
        0x37 => Some(ScanCode::Power),
        0x38 => Some(ScanCode::WebBack),
        0x3A => Some(ScanCode::WebHome),
        0x3B => Some(ScanCode::Stop),
        0x3F => Some(ScanCode::Sleep),
        0x40 => Some(ScanCode::MyComputer),
        0x48 => Some(ScanCode::Email),
        0x4A => Some(ScanCode::KeypadSlash),
        0x4D => Some(ScanCode::NextTrack),
        0x50 => Some(ScanCode::MediaSelect),
        0x5A => Some(ScanCode::KeypadEnter),
        0x5E => Some(ScanCode::Wake),
        0x69 => Some(ScanCode::End),
        0x6B => Some(ScanCode::CursorLeft),
        0x6C => Some(ScanCode::Home),
        0x70 => Some(ScanCode::Insert),
        0x71 => Some(ScanCode::Delete),
        0x72 => Some(ScanCode::CursorDown),
        0x74 => Some(ScanCode::CursorRight),
        0x75 => Some(ScanCode::CursorUp),
        0x7A => Some(ScanCode::PageDown),
        0x7D => Some(ScanCode::PageUp),
        _ => None,
    }
}

pub fn extra(byte: u8) -> (r: Option<ScanCode>)
    ensures
        r == extra_key(byte),
{
    match byte {
        0x10 => Some(ScanCode::WebSearch),
        0x11 => Some(ScanCode::RightAlt),
        0x14 => Some(ScanCode::RightControl),
        0x15 => Some(ScanCode::PreviousTrack),
        0x18 => Some(ScanCode::WebFavorites),
        0x1F => Some(ScanCode::LeftGUI),
        0x20 => Some(ScanCode::WebRefresh),
        0x21 => Some(ScanCode::VolumeDown),
        0x23 => Some(ScanCode::Mute),
        0x27 => Some(ScanCode::RightGUI),
        0x28 => Some(ScanCode::WebStop),
        0x2B => Some(ScanCode::Calculator),
        0x2F => Some(ScanCode::Apps),
        0x30 => Some(ScanCode::WebForward),
        0x32 => Some(ScanCode::VolumeUp),
        0x34 => Some(ScanCode::PlayPause),
        0x37 => Some(ScanCode::Power),
        0x38 => Some(ScanCode::WebBack),
        0x3A => Some(ScanCode::WebHome),
        0x3B => Some(ScanCode::Stop),
        0x3F => Some(ScanCode::Sleep),
        0x40 => Some(ScanCode::MyComputer),
        0x48 => Some(ScanCode::Email),
        0x4A => Some(ScanCode::KeypadSlash),
        0x4D => Some(ScanCode::NextTrack),
        0x50 => Some(ScanCode::MediaSelect),
        0x5A => Some(ScanCode::KeypadEnter),
        0x5E => Some(ScanCode::Wake),
        0x69 => Some(ScanCode::End),
        0x6B => Some(ScanCode::CursorLeft),
        0x6C => Some(ScanCode::Home),
        0x70 => Some(ScanCode::Insert),
        0x71 => Some(ScanCode::Delete),
        0x72 => Some(ScanCode::CursorDown),
        0x74 => Some(ScanCode::CursorRight),
        0x75 => Some(ScanCode::CursorUp),
        0x7A => Some(ScanCode::PageDown),
        0x7D => Some(ScanCode::PageUp),
        _ => None,
    }
}

/// The key that `table` gives for `byte`.
pub open spec fn table_key(table: Table, byte: u8) -> Option<ScanCode> {
    match table {
        Table::Basic => basic_key(byte),
        Table::Extra => extra_key(byte),
    }
}

/// Looks `byte` up in `table`.
pub fn lookup(table: Table, byte: u8) -> (r: Option<ScanCode>)
    ensures
        r == table_key(table, byte),
{
    match table {
        Table::Basic => basic(byte),
        Table::Extra => extra(byte),
    }
}

/// The outcome of a completed sequence: an event, back to the ground state.
pub open spec fn emit(scan_code: ScanCode, key_status: KeyStatus) -> (Decoder, DecoderResult) {
    (Decoder::ReadNothing, Ok(Some(Event { scan_code, key_status })))
}

/// The outcome of an unknown sequence: an error, back to the ground state.
pub open spec fn reject() -> (Decoder, DecoderResult) {
    (Decoder::ReadNothing, Err(UnknownSequence))
}

/// The outcome of a byte that continues a sequence.
pub open spec fn wait(next: Decoder) -> (Decoder, DecoderResult) {
    (next, Ok(None))
}

/// The outcome of a final byte looked up in a table.
pub open spec fn emit_lookup(table: Table, byte: u8, key_status: KeyStatus) -> (
    Decoder,
    DecoderResult,
) {
    match table_key(table, byte) {
        Some(scan_code) => emit(scan_code, key_status),
        None => reject(),
    }
}

/// The outcome of a byte that must equal `required` to continue to `next`.
pub open spec fn expect(byte: u8, required: u8, next: Decoder) -> (Decoder, DecoderResult) {
    if byte == required {
        wait(next)
    } else {
        reject()
    }
}

impl Decoder {
    /// The decoder's automaton: next state and outcome for one byte.
    pub open spec fn step(self, byte: u8) -> (Decoder, DecoderResult) {
        match self {
            Decoder::ReadNothing => {
                if byte == 0xE0 {
                    wait(Decoder::ReadE0)
                } else if byte == 0xE1 {
                    wait(Decoder::ReadE1)
                } else if byte == 0xF0 {
                    wait(Decoder::ReadF0)
                } else {
                    emit_lookup(Table::Basic, byte, KeyStatus::Pressed)
                }
            },
            Decoder::ReadE0 => {
                if byte == 0x12 {
                    wait(Decoder::ReadE012)
                } else if byte == 0xF0 {
                    wait(Decoder::ReadE0F0)
                } else {
                    emit_lookup(Table::Extra, byte, KeyStatus::Pressed)
                }
            },
            Decoder::ReadE012 => expect(byte, 0xE0, Decoder::ReadE012E0),
            Decoder::ReadE012E0 => {
                if byte == 0x7C {
                    emit(ScanCode::PrintScreen, KeyStatus::Pressed)
                } else {
                    reject()
                }
            },
            Decoder::ReadE0F0 => {
                if byte == 0x7C {
                    wait(Decoder::ReadE0F07C)
                } else if byte == 0x7D {
                    emit(ScanCode::PageUp, KeyStatus::Released)
                } else {
                    emit_lookup(Table::Extra, byte, KeyStatus::Released)
                }
            },
            Decoder::ReadE0F07C => expect(byte, 0xE0, Decoder::ReadE0F07CE0),
            Decoder::ReadE0F07CE0 => expect(byte, 0xF0, Decoder::ReadE0F07CE0F0),
            Decoder::ReadE0F07CE0F0 => {
                if byte == 0x12 {
                    emit(ScanCode::PrintScreen, KeyStatus::Released)
                } else {
                    reject()
                }
            },
            Decoder::ReadE1 => {
                if byte == 0x14 {
                    wait(Decoder::ReadE114)
                } else if byte == 0xF0 {
                    wait(Decoder::ReadE1F0)
                } else {
                    reject()
                }
            },
            Decoder::ReadE114 => {
                if byte == 0x77 {
                    emit(ScanCode::Pause, KeyStatus::Pressed)
                } else {
                    reject()
                }
            },
            Decoder::ReadE1F0 => expect(byte, 0x14, Decoder::ReadE1F014),
            Decoder::ReadE1F014 => expect(byte, 0xF0, Decoder::ReadE1F014F0),
            Decoder::ReadE1F014F0 => {
                if byte == 0x77 {
                    emit(ScanCode::Pause, KeyStatus::Released)
                } else {
                    reject()
                }
            },
            Decoder::ReadF0 => emit_lookup(Table::Basic, byte, KeyStatus::Released),
        }
    }

    /// A decoder in the ground state.
    pub fn new() -> (r: Decoder)
        ensures
            r == Decoder::ReadNothing,
    {
        Decoder::ReadNothing
    }

    /// Completes a sequence with the press of `scan_code`.
    pub fn pressed(&mut self, scan_code: ScanCode) -> (r: DecoderResult)
        ensures
            (*final(self), r) == emit(scan_code, KeyStatus::Pressed),
    {
        *self = Decoder::ReadNothing;
        Ok(Some(Event { scan_code, key_status: KeyStatus::Pressed }))
    }

    /// Completes a sequence with the release of `scan_code`.
    pub fn released(&mut self, scan_code: ScanCode) -> (r: DecoderResult)
        ensures
            (*final(self), r) == emit(scan_code, KeyStatus::Released),
    {
        *self = Decoder::ReadNothing;
        Ok(Some(Event { scan_code, key_status: KeyStatus::Released }))
    }

    /// Completes a sequence with the press of the key that `table` gives for
    /// `byte`, or rejects it if the table has none.
    pub fn decode_pressed(&mut self, byte: u8, table: Table) -> (r: DecoderResult)
        ensures
            (*final(self), r) == emit_lookup(table, byte, KeyStatus::Pressed),
    {
        match lookup(table, byte) {
            None => self.unknown(),
            Some(scan_code) => self.pressed(scan_code),
        }
    }

    /// Completes a sequence with the release of the key that `table` gives
    /// for `byte`, or rejects it if the table has none.
    pub fn decode_released(&mut self, byte: u8, table: Table) -> (r: DecoderResult)
        ensures
            (*final(self), r) == emit_lookup(table, byte, KeyStatus::Released),
    {
        match lookup(table, byte) {
            None => self.unknown(),
            Some(scan_code) => self.released(scan_code),
        }
    }

    /// Moves to `new_state`, with no event yet.
    pub fn incomplete(&mut self, new_state: Decoder) -> (r: DecoderResult)
        ensures
            (*final(self), r) == wait(new_state),
    {
        *self = new_state;
        Ok(None)
    }

    /// Rejects the sequence and returns to the ground state.
    pub fn unknown(&mut self) -> (r: DecoderResult)
        ensures
            (*final(self), r) == reject(),
    {
        *self = Decoder::ReadNothing;
        Err(UnknownSequence)
    }

    /// Continues to `next_state` when `received_byte` is `required_byte`, and
    /// rejects the sequence otherwise.
    pub fn transition(&mut self, received_byte: u8, required_byte: u8, next_state: Decoder) -> (r:
        DecoderResult)
        ensures
            (*final(self), r) == expect(received_byte, required_byte, next_state),
    {
        if received_byte == required_byte {
            self.incomplete(next_state)
        } else {
            self.unknown()
        }
    }

    /// Feeds one byte of the stream: the decoder moves as `step` says and
    /// yields its outcome.
    pub fn feed(&mut self, byte: u8) -> (r: DecoderResult)
        ensures
            (*final(self), r) == old(self).step(byte),
    {
        match *self {
            Decoder::ReadNothing => {
                if byte == 0xE0 {
                    self.incomplete(Decoder::ReadE0)
                } else if byte == 0xE1 {
                    self.incomplete(Decoder::ReadE1)
                } else if byte == 0xF0 {
                    self.incomplete(Decoder::ReadF0)
                } else {
                    self.decode_pressed(byte, Table::Basic)
                }
            },
            Decoder::ReadE0 => {
                if byte == 0x12 {
                    self.incomplete(Decoder::ReadE012)
                } else if byte == 0xF0 {
                    self.incomplete(Decoder::ReadE0F0)
                } else {
                    self.decode_pressed(byte, Table::Extra)
                }
            },
            Decoder::ReadE012 => self.transition(byte, 0xE0, Decoder::ReadE012E0),
            Decoder::ReadE012E0 => {
                if byte == 0x7C {
                    self.pressed(ScanCode::PrintScreen)
                } else {
                    self.unknown()
                }
            },
            Decoder::ReadE0F0 => {
                if byte == 0x7C {
                    self.incomplete(Decoder::ReadE0F07C)
                } else if byte == 0x7D {
                    self.released(ScanCode::PageUp)
                } else {
                    self.decode_released(byte, Table::Extra)
                }
            },
            Decoder::ReadE0F07C => self.transition(byte, 0xE0, Decoder::ReadE0F07CE0),
            Decoder::ReadE0F07CE0 => self.transition(byte, 0xF0, Decoder::ReadE0F07CE0F0),
            Decoder::ReadE0F07CE0F0 => {
                if byte == 0x12 {
                    self.released(ScanCode::PrintScreen)
                } else {
                    self.unknown()
                }
            },
            Decoder::ReadE1 => {
                if byte == 0x14 {
                    self.incomplete(Decoder::ReadE114)
                } else if byte == 0xF0 {
                    self.incomplete(Decoder::ReadE1F0)
                } else {
                    self.unknown()
                }
            },
            Decoder::ReadE114 => {
                if byte == 0x77 {
                    self.pressed(ScanCode::Pause)
                } else {
                    self.unknown()
                }
            },
            Decoder::ReadE1F0 => self.transition(byte, 0x14, Decoder::ReadE1F014),
            Decoder::ReadE1F014 => self.transition(byte, 0xF0, Decoder::ReadE1F014F0),
            Decoder::ReadE1F014F0 => {
                if byte == 0x77 {
                    self.released(ScanCode::Pause)
                } else {
                    self.unknown()
                }
            },
            Decoder::ReadF0 => self.decode_released(byte, Table::Basic),
        }
    }
}

impl Decoder {
    /// The one byte that continues a sequence from a state that admits only
    /// one, for the states of print screen and pause past their first bytes.
    pub open spec fn sole_continuation(self) -> Option<u8> {
        match self {
            Decoder::ReadE012 => Some(0xE0u8),
            Decoder::ReadE012E0 => Some(0x7Cu8),
            Decoder::ReadE0F07C => Some(0xE0u8),
            Decoder::ReadE0F07CE0 => Some(0xF0u8),
            Decoder::ReadE0F07CE0F0 => Some(0x12u8),
            Decoder::ReadE114 => Some(0x77u8),
            Decoder::ReadE1F0 => Some(0x14u8),
            Decoder::ReadE1F014 => Some(0xF0u8),
            Decoder::ReadE1F014F0 => Some(0x77u8),
            _ => None,
        }
    }
}

/// Every byte either continues a sequence, leaving the ground state with no
/// event, or ends it, with an event or an error, back in the ground state.
pub proof fn lemma_outcome_returns_to_ground(state: Decoder, byte: u8)
    ensures
        state.step(byte).1 == Ok::<Option<Event>, UnknownSequence>(None) ==> state.step(byte).0
            != Decoder::ReadNothing,
        state.step(byte).1 != Ok::<Option<Event>, UnknownSequence>(None) ==> state.step(byte).0
            == Decoder::ReadNothing,
{
}

/// In a state that admits a single continuation, any other byte is an
/// unknown sequence and brings the decoder back to the ground state.
pub proof fn lemma_wrong_continuation_rejected(state: Decoder, byte: u8)
    requires
        state.sole_continuation() is Some,
        byte != state.sole_continuation()->0,
    ensures
        state.step(byte) == reject(),
{
}

/// A `0xF0` prefix releases the key that the same byte alone would press.
pub proof fn lemma_release_mirrors_press(byte: u8, scan_code: ScanCode)
    requires
        byte != 0xE0,
        byte != 0xE1,
        byte != 0xF0,
    ensures
        Decoder::ReadNothing.step(byte) == emit(scan_code, KeyStatus::Pressed)
            <==> Decoder::ReadF0.step(byte) == emit(scan_code, KeyStatus::Released),
        Decoder::ReadNothing.step(byte) == reject() <==> Decoder::ReadF0.step(byte) == reject(),
{
}

/// After `0xE0`, a `0xF0` prefix releases the key that the same byte would
/// press; print screen, whose sequences differ, is left out.
pub proof fn lemma_extended_release_mirrors_press(byte: u8, scan_code: ScanCode)
    requires
        byte != 0x12,
        byte != 0xF0,
        byte != 0x7C,
    ensures
        Decoder::ReadE0.step(byte) == emit(scan_code, KeyStatus::Pressed)
            <==> Decoder::ReadE0F0.step(byte) == emit(scan_code, KeyStatus::Released),
        Decoder::ReadE0.step(byte) == reject() <==> Decoder::ReadE0F0.step(byte) == reject(),
{
}

} // verus!
