use vstd::prelude::*;

verus! {

/// A physical key, identified independently of the keyboard's layout.
#[derive(Debug, Clone, Copy, PartialEq, Eq, Structural)]
pub enum ScanCode {
    Zero,
    One,
    Two,
    Three,
    Four,
    Five,
    Six,
    Seven,
    Eight,
    Nine,
    A,
    B,
    C,
    D,
    E,
    F,
    G,
    H,
    I,
    J,
    K,
    L,
    M,
    N,
    O,
    P,
    Q,
    R,
    S,
    T,
    U,
    V,
    W,
    X,
    Y,
    Z,
    CursorLeft,
    CursorRight,
    CursorUp,
    CursorDown,
    F1,
    F2,
    F3,
    F4,
    F5,
    F6,
    F7,
    F8,
    F9,
    F10,
    F11,
    F12,
    Escape,
    Tab,
    Enter,
    Space,
    Backspace,
    Delete,
    Minus,
    Equal,
    LeftBracket,
    RightBracket,
    BackTick,
    SingleQuote,
    Slash,
    BackSlash,
    Comma,
    Dot,
    SemiColon,
    Star,
    LeftShift,
    RightShift,
    LeftControl,
    RightControl,
    LeftAlt,
    RightAlt,
    CapsLock,
    NumberLock,
    ScrollLock,
    KeypadZero,
    KeypadOne,
    KeypadTwo,
    KeypadThree,
    KeypadFour,
    KeypadFive,
    KeypadSix,
    KeypadSeven,
    KeypadEight,
    KeypadNine,
    KeypadMinus,
    KeypadPlus,
    KeypadDot,
    KeypadSlash,
    KeypadStar,
    KeypadEnter,
    Insert,
    PreviousTrack,
    NextTrack,
    Mute,
    Play,
    Pause,
    PlayPause,
    Stop,
    VolumeDown,
    VolumeUp,
    PageDown,
    PageUp,
    End,
    LeftGUI,
    RightGUI,
    Power,
    Sleep,
    Wake,
    WebSearch,
    WebForward,
    WebBack,
    WebHome,
    WebFavorites,
    WebRefresh,
    WebStop,
    Apps,
    Home,
    Email,
    MyComputer,
    Calculator,
    MediaSelect,
    PrintScreen,
}

impl ScanCode {
    /// Number of key slots: every key index is below this bound.
    pub const COUNT: usize = 128;

    /// The key's index in tables of `SCAN_CODE_COUNT` entries.
    pub open spec fn code(self) -> u8 {
        match self {
            ScanCode::Zero => 0,
            ScanCode::One => 1,
            ScanCode::Two => 2,
            ScanCode::Three => 3,
            ScanCode::Four => 4,
            ScanCode::Five => 5,
            ScanCode::Six => 6,
            ScanCode::Seven => 7,
            ScanCode::Eight => 8,
            ScanCode::Nine => 9,
            ScanCode::A => 10,
            ScanCode::B => 11,
            ScanCode::C => 12,
            ScanCode::D => 13,
            ScanCode::E => 14,
            ScanCode::F => 15,
            ScanCode::G => 16,
            ScanCode::H => 17,
            ScanCode::I => 18,
            ScanCode::J => 19,
            ScanCode::K => 20,
            ScanCode::L => 21,
            ScanCode::M => 22,
            ScanCode::N => 23,
            ScanCode::O => 24,
            ScanCode::P => 25,
            ScanCode::Q => 26,
            ScanCode::R => 27,
            ScanCode::S => 28,
            ScanCode::T => 29,
            ScanCode::U => 30,
            ScanCode::V => 31,
            ScanCode::W => 32,
            ScanCode::X => 33,
            ScanCode::Y => 34,
            ScanCode::Z => 35,
            ScanCode::CursorLeft => 37,
            ScanCode::CursorRight => 38,
            ScanCode::CursorUp => 39,
            ScanCode::CursorDown => 40,
            ScanCode::F1 => 41,
            ScanCode::F2 => 42,
            ScanCode::F3 => 43,
            ScanCode::F4 => 44,
            ScanCode::F5 => 45,
            ScanCode::F6 => 46,
            ScanCode::F7 => 47,
            ScanCode::F8 => 48,
            ScanCode::F9 => 49,
            ScanCode::F10 => 50,
            ScanCode::F11 => 51,
            ScanCode::F12 => 52,
            ScanCode::Escape => 53,
            ScanCode::Tab => 54,
            ScanCode::Enter => 55,
            ScanCode::Space => 56,
            ScanCode::Backspace => 57,
            ScanCode::Delete => 58,
            ScanCode::Minus => 59,
            ScanCode::Equal => 60,
            ScanCode::LeftBracket => 61,
            ScanCode::RightBracket => 62,
            ScanCode::BackTick => 63,
            ScanCode::SingleQuote => 64,
            ScanCode::Slash => 65,
            ScanCode::BackSlash => 66,
            ScanCode::Comma => 67,
            ScanCode::Dot => 68,
            ScanCode::SemiColon => 69,
            ScanCode::Star => 70,
            ScanCode::LeftShift => 71,
            ScanCode::RightShift => 72,
            ScanCode::LeftControl => 73,
            ScanCode::RightControl => 74,
            ScanCode::LeftAlt => 75,
            ScanCode::RightAlt => 76,
            ScanCode::CapsLock => 77,
            ScanCode::NumberLock => 78,
            ScanCode::ScrollLock => 79,
            ScanCode::KeypadZero => 80,
            ScanCode::KeypadOne => 81,
            ScanCode::KeypadTwo => 82,
            ScanCode::KeypadThree => 83,
            ScanCode::KeypadFour => 84,
            ScanCode::KeypadFive => 85,
            ScanCode::KeypadSix => 86,
            ScanCode::KeypadSeven => 87,
            ScanCode::KeypadEight => 88,
            ScanCode::KeypadNine => 89,
            ScanCode::KeypadMinus => 90,
            ScanCode::KeypadPlus => 91,
            ScanCode::KeypadDot => 92,
            ScanCode::KeypadSlash => 93,
            ScanCode::KeypadStar => 94,
            ScanCode::KeypadEnter => 95,
            ScanCode::Insert => 96,
            ScanCode::PreviousTrack => 97,
            ScanCode::NextTrack => 98,
            ScanCode::Mute => 99,
            ScanCode::Play => 100,
            ScanCode::Pause => 101,
            ScanCode::PlayPause => 102,
            ScanCode::Stop => 103,
            ScanCode::VolumeDown => 104,
            ScanCode::VolumeUp => 105,
            ScanCode::PageDown => 106,
            ScanCode::PageUp => 107,
            ScanCode::End => 108,
            ScanCode::LeftGUI => 109,
            ScanCode::RightGUI => 110,
            ScanCode::Power => 111,
            ScanCode::Sleep => 112,
            ScanCode::Wake => 113,
            ScanCode::WebSearch => 114,
            ScanCode::WebForward => 115,
            ScanCode::WebBack => 116,
            ScanCode::WebHome => 117,
            ScanCode::WebFavorites => 118,
            ScanCode::WebRefresh => 119,
            ScanCode::WebStop => 120,
            ScanCode::Apps => 121,
            ScanCode::Home => 122,
            ScanCode::Email => 123,
            ScanCode::MyComputer => 124,
            ScanCode::Calculator => 125,
            ScanCode::MediaSelect => 126,
            ScanCode::PrintScreen => 127,
        }
    }

    /// The key's index, as `code` states it.
    pub fn index(self) -> (r: u8)
        ensures
            r == self.code(),
            (r as usize) < Self::COUNT,
    {
        match self {
            ScanCode::Zero => 0,
            ScanCode::One => 1,
            ScanCode::Two => 2,
            ScanCode::Three => 3,
            ScanCode::Four => 4,
            ScanCode::Five => 5,
            ScanCode::Six => 6,
            ScanCode::Seven => 7,
            ScanCode::Eight => 8,
            ScanCode::Nine => 9,
            ScanCode::A => 10,
            ScanCode::B => 11,
            ScanCode::C => 12,
            ScanCode::D => 13,
            ScanCode::E => 14,
            ScanCode::F => 15,
            ScanCode::G => 16,
            ScanCode::H => 17,
            ScanCode::I => 18,
            ScanCode::J => 19,
            ScanCode::K => 20,
            ScanCode::L => 21,
            ScanCode::M => 22,
            ScanCode::N => 23,
            ScanCode::O => 24,
            ScanCode::P => 25,
            ScanCode::Q => 26,
            ScanCode::R => 27,
            ScanCode::S => 28,
            ScanCode::T => 29,
            ScanCode::U => 30,
            ScanCode::V => 31,
            ScanCode::W => 32,
            ScanCode::X => 33,
            ScanCode::Y => 34,
            ScanCode::Z => 35,
            ScanCode::CursorLeft => 37,
            ScanCode::CursorRight => 38,
            ScanCode::CursorUp => 39,
            ScanCode::CursorDown => 40,
            ScanCode::F1 => 41,
            ScanCode::F2 => 42,
            ScanCode::F3 => 43,
            ScanCode::F4 => 44,
            ScanCode::F5 => 45,
            ScanCode::F6 => 46,
            ScanCode::F7 => 47,
            ScanCode::F8 => 48,
            ScanCode::F9 => 49,
            ScanCode::F10 => 50,
            ScanCode::F11 => 51,
            ScanCode::F12 => 52,
            ScanCode::Escape => 53,
            ScanCode::Tab => 54,
            ScanCode::Enter => 55,
            ScanCode::Space => 56,
            ScanCode::Backspace => 57,
            ScanCode::Delete => 58,
            ScanCode::Minus => 59,
            ScanCode::Equal => 60,
            ScanCode::LeftBracket => 61,
            ScanCode::RightBracket => 62,
            ScanCode::BackTick => 63,
            ScanCode::SingleQuote => 64,
            ScanCode::Slash => 65,
            ScanCode::BackSlash => 66,
            ScanCode::Comma => 67,
            ScanCode::Dot => 68,
            ScanCode::SemiColon => 69,
            ScanCode::Star => 70,
            ScanCode::LeftShift => 71,
            ScanCode::RightShift => 72,
            ScanCode::LeftControl => 73,
            ScanCode::RightControl => 74,
            ScanCode::LeftAlt => 75,
            ScanCode::RightAlt => 76,
            ScanCode::CapsLock => 77,
            ScanCode::NumberLock => 78,
            ScanCode::ScrollLock => 79,
            ScanCode::KeypadZero => 80,
            ScanCode::KeypadOne => 81,
            ScanCode::KeypadTwo => 82,
            ScanCode::KeypadThree => 83,
            ScanCode::KeypadFour => 84,
            ScanCode::KeypadFive => 85,
            ScanCode::KeypadSix => 86,
            ScanCode::KeypadSeven => 87,
            ScanCode::KeypadEight => 88,
            ScanCode::KeypadNine => 89,
            ScanCode::KeypadMinus => 90,
            ScanCode::KeypadPlus => 91,
            ScanCode::KeypadDot => 92,
            ScanCode::KeypadSlash => 93,
            ScanCode::KeypadStar => 94,
            ScanCode::KeypadEnter => 95,
            ScanCode::Insert => 96,
            ScanCode::PreviousTrack => 97,
            ScanCode::NextTrack => 98,
            ScanCode::Mute => 99,
            ScanCode::Play => 100,
            ScanCode::Pause => 101,
            ScanCode::PlayPause => 102,
            ScanCode::Stop => 103,
            ScanCode::VolumeDown => 104,
            ScanCode::VolumeUp => 105,
            ScanCode::PageDown => 106,
            ScanCode::PageUp => 107,
            ScanCode::End => 108,
            ScanCode::LeftGUI => 109,
            ScanCode::RightGUI => 110,
            ScanCode::Power => 111,
            ScanCode::Sleep => 112,
            ScanCode::Wake => 113,
            ScanCode::WebSearch => 114,
            ScanCode::WebForward => 115,
            ScanCode::WebBack => 116,
            ScanCode::WebHome => 117,
            ScanCode::WebFavorites => 118,
            ScanCode::WebRefresh => 119,
            ScanCode::WebStop => 120,
            ScanCode::Apps => 121,
            ScanCode::Home => 122,
            ScanCode::Email => 123,
            ScanCode::MyComputer => 124,
            ScanCode::Calculator => 125,
            ScanCode::MediaSelect => 126,
            ScanCode::PrintScreen => 127,
        }
    }

    /// Digits of the main block, `Zero` to `Nine`.
    pub open spec fn spec_is_basic_number(self) -> bool {
        self.code() <= 9
    }

    /// Digits of the keypad, `KeypadZero` to `KeypadNine`.
    pub open spec fn spec_is_keypad_number(self) -> bool {
        80 <= self.code() <= 89
    }

    /// Letters, `A` to `Z`.
    pub open spec fn spec_is_letter(self) -> bool {
        10 <= self.code() <= 35
    }

    /// Symbols of the main block, `Minus` to `Star`.
    pub open spec fn spec_is_basic_symbol(self) -> bool {
        59 <= self.code() <= 70
    }

    /// Symbols of the keypad, `KeypadMinus` to `KeypadStar`.
    pub open spec fn spec_is_keypad_symbol(self) -> bool {
        90 <= self.code() <= 94
    }

    /// The ASCII byte that a key writes on its own, when it writes one.
    pub open spec fn ascii(self) -> Option<u8> {
        if self.spec_is_basic_number() {
            Some((48 + self.code()) as u8)
        } else if self.spec_is_keypad_number() {
            Some((48 + (self.code() - 80)) as u8)
        } else if self.spec_is_letter() {
            Some((65 + (self.code() - 10)) as u8)
        } else {
            match self {
                ScanCode::Space => Some(32u8),
                ScanCode::Minus | ScanCode::KeypadMinus => Some(45u8),
                ScanCode::Equal => Some(61u8),
                ScanCode::LeftBracket => Some(91u8),
                ScanCode::RightBracket => Some(93u8),
                ScanCode::BackTick => Some(96u8),
                ScanCode::SingleQuote => Some(39u8),
                ScanCode::Slash | ScanCode::KeypadSlash => Some(47u8),
                ScanCode::BackSlash => Some(92u8),
                ScanCode::Comma => Some(44u8),
                ScanCode::Dot | ScanCode::KeypadDot => Some(46u8),
                ScanCode::SemiColon => Some(59u8),
                ScanCode::Star | ScanCode::KeypadStar => Some(42u8),
                ScanCode::KeypadPlus => Some(43u8),
                _ => None,
            }
        }
    }

    pub fn is_basic_number(self) -> (r: bool)
        ensures
            r == self.spec_is_basic_number(),
    {
        self.index() <= 9
    }

    pub fn is_keypad_number(self) -> (r: bool)
        ensures
            r == self.spec_is_keypad_number(),
    {
        let i = self.index();
        80 <= i && i <= 89
    }

    pub fn is_number(self) -> (r: bool)
        ensures
            r == (self.spec_is_basic_number() || self.spec_is_keypad_number()),
    {
        self.is_basic_number() || self.is_keypad_number()
    }

    pub fn is_letter(self) -> (r: bool)
        ensures
            r == self.spec_is_letter(),
    {
        let i = self.index();
        10 <= i && i <= 35
    }

    pub fn is_basic_symbol(self) -> (r: bool)
        ensures
            r == self.spec_is_basic_symbol(),
    {
        let i = self.index();
        59 <= i && i <= 70
    }

    pub fn is_keypad_symbol(self) -> (r: bool)
        ensures
            r == self.spec_is_keypad_symbol(),
    {
        let i = self.index();
        90 <= i && i <= 94
    }

    pub fn is_symbol(self) -> (r: bool)
        ensures
            r == (self.spec_is_basic_symbol() || self.spec_is_keypad_symbol()),
    {
        self.is_basic_symbol() || self.is_keypad_symbol()
    }

    /// The ASCII byte that the key writes, if any: digits and letters
    /// (upper case) by position, and the usual symbols.
    pub fn try_into_ascii(self) -> (r: Option<u8>)
        ensures
            r == self.ascii(),
    {
        if self.is_basic_number() {
            Some(48u8 + self.index())
        } else if self.is_keypad_number() {
            Some(48u8 + (self.index() - 80))
        } else if self.is_letter() {
            Some(65u8 + (self.index() - 10))
        } else {
            match self {
                ScanCode::Space => Some(32u8),
                ScanCode::Minus | ScanCode::KeypadMinus => Some(45u8),
                ScanCode::Equal => Some(61u8),
                ScanCode::LeftBracket => Some(91u8),
                ScanCode::RightBracket => Some(93u8),
                ScanCode::BackTick => Some(96u8),
                ScanCode::SingleQuote => Some(39u8),
                ScanCode::Slash | ScanCode::KeypadSlash => Some(47u8),
                ScanCode::BackSlash => Some(92u8),
                ScanCode::Comma => Some(44u8),
                ScanCode::Dot | ScanCode::KeypadDot => Some(46u8),
                ScanCode::SemiColon => Some(59u8),
                ScanCode::Star | ScanCode::KeypadStar => Some(42u8),
                ScanCode::KeypadPlus => Some(43u8),
                _ => None,
            }
        }
    }
}

} // verus!
