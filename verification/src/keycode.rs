//! The key codes of SDL2, one variant for each.

use vstd::prelude::*;
use std::hash::Hash;
use std::hash::Hasher;
use crate::laws::lemma_from_code_unique;

verus! {

/// A key, named after the character or function that it stands for on an
/// unshifted keyboard.
///
/// Every variant carries one integer, [`KeyCode::code`], which is the value of
/// the `SDLK_*` constant of the same key in SDL's `SDL_keycode.h`.
#[derive(Clone, Copy, Debug, PartialEq, Eq, Structural)]
pub enum KeyCode {
    Unknown,
    Backspace,
    Tab,
    Return,
    Escape,
    Space,
    Exclaim,
    Quotedbl,
    Hash,
    Dollar,
    Percent,
    Ampersand,
    Quote,
    LeftParen,
    RightParen,
    Asterisk,
    Plus,
    Comma,
    Minus,
    Period,
    Slash,
    Num0,
    Num1,
    Num2,
    Num3,
    Num4,
    Num5,
    Num6,
    Num7,
    Num8,
    Num9,
    Colon,
    Semicolon,
    Less,
    Equals,
    Greater,
    Question,
    At,
    LeftBracket,
    Backslash,
    RightBracket,
    Caret,
    Underscore,
    Backquote,
    A,
    B,
    C,
    D,
    E,
    F,
    G,
    H,
    I,
    J,
    K,
    L,
    M,
    N,
    O,
    P,
    Q,
    R,
    S,
    T,
    U,
    V,
    W,
    X,
    Y,
    Z,
    Delete,
    CapsLock,
    F1,
    F2,
    F3,
    F4,
    F5,
    F6,
    F7,
    F8,
    F9,
    F10,
    F11,
    F12,
    PrintScreen,
    ScrollLock,
    Pause,
    Insert,
    Home,
    PageUp,
    End,
    PageDown,
    Right,
    Left,
    Down,
    Up,
    NumLockClear,
    KpDivide,
    KpMultiply,
    KpMinus,
    KpPlus,
    KpEnter,
    Kp1,
    Kp2,
    Kp3,
    Kp4,
    Kp5,
    Kp6,
    Kp7,
    Kp8,
    Kp9,
    Kp0,
    KpPeriod,
    Application,
    Power,
    KpEquals,
    F13,
    F14,
    F15,
    F16,
    F17,
    F18,
    F19,
    F20,
    F21,
    F22,
    F23,
    F24,
    Execute,
    Help,
    Menu,
    Select,
    Stop,
    Again,
    Undo,
    Cut,
    Copy,
    Paste,
    Find,
    Mute,
    VolumeUp,
    VolumeDown,
    KpComma,
    KpEqualsAS400,
    AltErase,
    Sysreq,
    Cancel,
    Clear,
    Prior,
    Return2,
    Separator,
    Out,
    Oper,
    ClearAgain,
    CrSel,
    ExSel,
    Kp00,
    Kp000,
    ThousandsSeparator,
    DecimalSeparator,
    CurrencyUnit,
    CurrencySubUnit,
    KpLeftParen,
    KpRightParen,
    KpLeftBrace,
    KpRightBrace,
    KpTab,
    KpBackspace,
    KpA,
    KpB,
    KpC,
    KpD,
    KpE,
    KpF,
    KpXor,
    KpPower,
    KpPercent,
    KpLess,
    KpGreater,
    KpAmpersand,
    KpDblAmpersand,
    KpVerticalBar,
    KpDblVerticalBar,
    KpColon,
    KpHash,
    KpSpace,
    KpAt,
    KpExclam,
    KpMemStore,
    KpMemRecall,
    KpMemClear,
    KpMemAdd,
    KpMemSubtract,
    KpMemMultiply,
    KpMemDivide,
    KpPlusMinus,
    KpCear,
    KpClearEntry,
    KpBinary,
    KpOctal,
    KpDecimal,
    KpHexadecimal,
    LCtrl,
    LShift,
    LAlt,
    LGui,
    RCtrl,
    RShift,
    RAlt,
    RGui,
    Mode,
    AudioNext,
    AudioPrev,
    AudioStop,
    AudioPlay,
    AudioMute,
    MediaSelect,
    Www,
    Mail,
    Calculator,
    Computer,
    AcSearch,
    AcHome,
    AcBack,
    AcForward,
    AcStop,
    AcRefresh,
    AcBookmarks,
    BrightnessDown,
    BrightnessUp,
    DisplaySwitch,
    KbdIllumToggle,
    KbdIllumDown,
    KbdIllumUp,
    Eject,
    Sleep,
}

impl KeyCode {
    /// The integer that SDL uses for this key.
    ///
    /// A key that produces a character has that character's ASCII value; the
    /// letters have the value of the lower-case letter. Every other key has its
    /// scan code with bit 30 set, written here in hexadecimal.
    pub open spec fn code(self) -> int {
        match self {
            KeyCode::Unknown => 0,
            KeyCode::Backspace => 8,
            KeyCode::Tab => 9,
            KeyCode::Return => 13,
            KeyCode::Escape => 27,
            KeyCode::Space => 32,
            KeyCode::Exclaim => 33,
            KeyCode::Quotedbl => 34,
            KeyCode::Hash => 35,
            KeyCode::Dollar => 36,
            KeyCode::Percent => 37,
            KeyCode::Ampersand => 38,
            KeyCode::Quote => 39,
            KeyCode::LeftParen => 40,
            KeyCode::RightParen => 41,
            KeyCode::Asterisk => 42,
            KeyCode::Plus => 43,
            KeyCode::Comma => 44,
            KeyCode::Minus => 45,
            KeyCode::Period => 46,
            KeyCode::Slash => 47,
            KeyCode::Num0 => 48,
            KeyCode::Num1 => 49,
            KeyCode::Num2 => 50,
            KeyCode::Num3 => 51,
            KeyCode::Num4 => 52,
            KeyCode::Num5 => 53,
            KeyCode::Num6 => 54,
            KeyCode::Num7 => 55,
            KeyCode::Num8 => 56,
            KeyCode::Num9 => 57,
            KeyCode::Colon => 58,
            KeyCode::Semicolon => 59,
            KeyCode::Less => 60,
            KeyCode::Equals => 61,
            KeyCode::Greater => 62,
            KeyCode::Question => 63,
            KeyCode::At => 64,
            KeyCode::LeftBracket => 91,
            KeyCode::Backslash => 92,
            KeyCode::RightBracket => 93,
            KeyCode::Caret => 94,
            KeyCode::Underscore => 95,
            KeyCode::Backquote => 96,
            KeyCode::A => 97,
            KeyCode::B => 98,
            KeyCode::C => 99,
            KeyCode::D => 100,
            KeyCode::E => 101,
            KeyCode::F => 102,
            KeyCode::G => 103,
            KeyCode::H => 104,
            KeyCode::I => 105,
            KeyCode::J => 106,
            KeyCode::K => 107,
            KeyCode::L => 108,
            KeyCode::M => 109,
            KeyCode::N => 110,
            KeyCode::O => 111,
            KeyCode::P => 112,
            KeyCode::Q => 113,
            KeyCode::R => 114,
            KeyCode::S => 115,
            KeyCode::T => 116,
            KeyCode::U => 117,
            KeyCode::V => 118,
            KeyCode::W => 119,
            KeyCode::X => 120,
            KeyCode::Y => 121,
            KeyCode::Z => 122,
            KeyCode::Delete => 127,
            KeyCode::CapsLock => 0x4000_0039,
            KeyCode::F1 => 0x4000_003A,
            KeyCode::F2 => 0x4000_003B,
            KeyCode::F3 => 0x4000_003C,
            KeyCode::F4 => 0x4000_003D,
            KeyCode::F5 => 0x4000_003E,
            KeyCode::F6 => 0x4000_003F,
            KeyCode::F7 => 0x4000_0040,
            KeyCode::F8 => 0x4000_0041,
            KeyCode::F9 => 0x4000_0042,
            KeyCode::F10 => 0x4000_0043,
            KeyCode::F11 => 0x4000_0044,
            KeyCode::F12 => 0x4000_0045,
            KeyCode::PrintScreen => 0x4000_0046,
            KeyCode::ScrollLock => 0x4000_0047,
            KeyCode::Pause => 0x4000_0048,
            KeyCode::Insert => 0x4000_0049,
            KeyCode::Home => 0x4000_004A,
            KeyCode::PageUp => 0x4000_004B,
            KeyCode::End => 0x4000_004D,
            KeyCode::PageDown => 0x4000_004E,
            KeyCode::Right => 0x4000_004F,
            KeyCode::Left => 0x4000_0050,
            KeyCode::Down => 0x4000_0051,
            KeyCode::Up => 0x4000_0052,
            KeyCode::NumLockClear => 0x4000_0053,
            KeyCode::KpDivide => 0x4000_0054,
            KeyCode::KpMultiply => 0x4000_0055,
            KeyCode::KpMinus => 0x4000_0056,
            KeyCode::KpPlus => 0x4000_0057,
            KeyCode::KpEnter => 0x4000_0058,
            KeyCode::Kp1 => 0x4000_0059,
            KeyCode::Kp2 => 0x4000_005A,
            KeyCode::Kp3 => 0x4000_005B,
            KeyCode::Kp4 => 0x4000_005C,
            KeyCode::Kp5 => 0x4000_005D,
            KeyCode::Kp6 => 0x4000_005E,
            KeyCode::Kp7 => 0x4000_005F,
            KeyCode::Kp8 => 0x4000_0060,
            KeyCode::Kp9 => 0x4000_0061,
            KeyCode::Kp0 => 0x4000_0062,
            KeyCode::KpPeriod => 0x4000_0063,
            KeyCode::Application => 0x4000_0065,
            KeyCode::Power => 0x4000_0066,
            KeyCode::KpEquals => 0x4000_0067,
            KeyCode::F13 => 0x4000_0068,
            KeyCode::F14 => 0x4000_0069,
            KeyCode::F15 => 0x4000_006A,
            KeyCode::F16 => 0x4000_006B,
            KeyCode::F17 => 0x4000_006C,
            KeyCode::F18 => 0x4000_006D,
            KeyCode::F19 => 0x4000_006E,
            KeyCode::F20 => 0x4000_006F,
            KeyCode::F21 => 0x4000_0070,
            KeyCode::F22 => 0x4000_0071,
            KeyCode::F23 => 0x4000_0072,
            KeyCode::F24 => 0x4000_0073,
            KeyCode::Execute => 0x4000_0074,
            KeyCode::Help => 0x4000_0075,
            KeyCode::Menu => 0x4000_0076,
            KeyCode::Select => 0x4000_0077,
            KeyCode::Stop => 0x4000_0078,
            KeyCode::Again => 0x4000_0079,
            KeyCode::Undo => 0x4000_007A,
            KeyCode::Cut => 0x4000_007B,
            KeyCode::Copy => 0x4000_007C,
            KeyCode::Paste => 0x4000_007D,
            KeyCode::Find => 0x4000_007E,
            KeyCode::Mute => 0x4000_007F,
            KeyCode::VolumeUp => 0x4000_0080,
            KeyCode::VolumeDown => 0x4000_0081,
            KeyCode::KpComma => 0x4000_0085,
            KeyCode::KpEqualsAS400 => 0x4000_0086,
            KeyCode::AltErase => 0x4000_0099,
            KeyCode::Sysreq => 0x4000_009A,
            KeyCode::Cancel => 0x4000_009B,
            KeyCode::Clear => 0x4000_009C,
            KeyCode::Prior => 0x4000_009D,
            KeyCode::Return2 => 0x4000_009E,
            KeyCode::Separator => 0x4000_009F,
            KeyCode::Out => 0x4000_00A0,
            KeyCode::Oper => 0x4000_00A1,
            KeyCode::ClearAgain => 0x4000_00A2,
            KeyCode::CrSel => 0x4000_00A3,
            KeyCode::ExSel => 0x4000_00A4,
            KeyCode::Kp00 => 0x4000_00B0,
            KeyCode::Kp000 => 0x4000_00B1,
            KeyCode::ThousandsSeparator => 0x4000_00B2,
            KeyCode::DecimalSeparator => 0x4000_00B3,
            KeyCode::CurrencyUnit => 0x4000_00B4,
            KeyCode::CurrencySubUnit => 0x4000_00B5,
            KeyCode::KpLeftParen => 0x4000_00B6,
            KeyCode::KpRightParen => 0x4000_00B7,
            KeyCode::KpLeftBrace => 0x4000_00B8,
            KeyCode::KpRightBrace => 0x4000_00B9,
            KeyCode::KpTab => 0x4000_00BA,
            KeyCode::KpBackspace => 0x4000_00BB,
            KeyCode::KpA => 0x4000_00BC,
            KeyCode::KpB => 0x4000_00BD,
            KeyCode::KpC => 0x4000_00BE,
            KeyCode::KpD => 0x4000_00BF,
            KeyCode::KpE => 0x4000_00C0,
            KeyCode::KpF => 0x4000_00C1,
            KeyCode::KpXor => 0x4000_00C2,
            KeyCode::KpPower => 0x4000_00C3,
            KeyCode::KpPercent => 0x4000_00C4,
            KeyCode::KpLess => 0x4000_00C5,
            KeyCode::KpGreater => 0x4000_00C6,
            KeyCode::KpAmpersand => 0x4000_00C7,
            KeyCode::KpDblAmpersand => 0x4000_00C8,
            KeyCode::KpVerticalBar => 0x4000_00C9,
            KeyCode::KpDblVerticalBar => 0x4000_00CA,
            KeyCode::KpColon => 0x4000_00CB,
            KeyCode::KpHash => 0x4000_00CC,
            KeyCode::KpSpace => 0x4000_00CD,
            KeyCode::KpAt => 0x4000_00CE,
            KeyCode::KpExclam => 0x4000_00CF,
            KeyCode::KpMemStore => 0x4000_00D0,
            KeyCode::KpMemRecall => 0x4000_00D1,
            KeyCode::KpMemClear => 0x4000_00D2,
            KeyCode::KpMemAdd => 0x4000_00D3,
            KeyCode::KpMemSubtract => 0x4000_00D4,
            KeyCode::KpMemMultiply => 0x4000_00D5,
            KeyCode::KpMemDivide => 0x4000_00D6,
            KeyCode::KpPlusMinus => 0x4000_00D7,
            KeyCode::KpCear => 0x4000_00D8,
            KeyCode::KpClearEntry => 0x4000_00D9,
            KeyCode::KpBinary => 0x4000_00DA,
            KeyCode::KpOctal => 0x4000_00DB,
            KeyCode::KpDecimal => 0x4000_00DC,
            KeyCode::KpHexadecimal => 0x4000_00DD,
            KeyCode::LCtrl => 0x4000_00E0,
            KeyCode::LShift => 0x4000_00E1,
            KeyCode::LAlt => 0x4000_00E2,
            KeyCode::LGui => 0x4000_00E3,
            KeyCode::RCtrl => 0x4000_00E4,
            KeyCode::RShift => 0x4000_00E5,
            KeyCode::RAlt => 0x4000_00E6,
            KeyCode::RGui => 0x4000_00E7,
            KeyCode::Mode => 0x4000_0101,
            KeyCode::AudioNext => 0x4000_0102,
            KeyCode::AudioPrev => 0x4000_0103,
            KeyCode::AudioStop => 0x4000_0104,
            KeyCode::AudioPlay => 0x4000_0105,
            KeyCode::AudioMute => 0x4000_0106,
            KeyCode::MediaSelect => 0x4000_0107,
            KeyCode::Www => 0x4000_0108,
            KeyCode::Mail => 0x4000_0109,
            KeyCode::Calculator => 0x4000_010A,
            KeyCode::Computer => 0x4000_010B,
            KeyCode::AcSearch => 0x4000_010C,
            KeyCode::AcHome => 0x4000_010D,
            KeyCode::AcBack => 0x4000_010E,
            KeyCode::AcForward => 0x4000_010F,
            KeyCode::AcStop => 0x4000_0110,
            KeyCode::AcRefresh => 0x4000_0111,
            KeyCode::AcBookmarks => 0x4000_0112,
            KeyCode::BrightnessDown => 0x4000_0113,
            KeyCode::BrightnessUp => 0x4000_0114,
            KeyCode::DisplaySwitch => 0x4000_0115,
            KeyCode::KbdIllumToggle => 0x4000_0116,
            KeyCode::KbdIllumDown => 0x4000_0117,
            KeyCode::KbdIllumUp => 0x4000_0118,
            KeyCode::Eject => 0x4000_0119,
            KeyCode::Sleep => 0x4000_011A,
        }
    }

    /// The key whose code is `n`, if there is one.
    pub open spec fn from_code(n: int) -> Option<KeyCode> {
        if exists|k: KeyCode| k.code() == n {
            Some(choose|k: KeyCode| k.code() == n)
        } else {
            None
        }
    }

    /// The key code as SDL's own integer type.
    pub fn to_i32(&self) -> (r: i32)
        ensures
            r == self.code(),
    {
        match self {
            KeyCode::Unknown => 0,
            KeyCode::Backspace => 8,
            KeyCode::Tab => 9,
            KeyCode::Return => 13,
            KeyCode::Escape => 27,
            KeyCode::Space => 32,
            KeyCode::Exclaim => 33,
            KeyCode::Quotedbl => 34,
            KeyCode::Hash => 35,
            KeyCode::Dollar => 36,
            KeyCode::Percent => 37,
            KeyCode::Ampersand => 38,
            KeyCode::Quote => 39,
            KeyCode::LeftParen => 40,
            KeyCode::RightParen => 41,
            KeyCode::Asterisk => 42,
            KeyCode::Plus => 43,
            KeyCode::Comma => 44,
            KeyCode::Minus => 45,
            KeyCode::Period => 46,
            KeyCode::Slash => 47,
            KeyCode::Num0 => 48,
            KeyCode::Num1 => 49,
            KeyCode::Num2 => 50,
            KeyCode::Num3 => 51,
            KeyCode::Num4 => 52,
            KeyCode::Num5 => 53,
            KeyCode::Num6 => 54,
            KeyCode::Num7 => 55,
            KeyCode::Num8 => 56,
            KeyCode::Num9 => 57,
            KeyCode::Colon => 58,
            KeyCode::Semicolon => 59,
            KeyCode::Less => 60,
            KeyCode::Equals => 61,
            KeyCode::Greater => 62,
            KeyCode::Question => 63,
            KeyCode::At => 64,
            KeyCode::LeftBracket => 91,
            KeyCode::Backslash => 92,
            KeyCode::RightBracket => 93,
            KeyCode::Caret => 94,
            KeyCode::Underscore => 95,
            KeyCode::Backquote => 96,
            KeyCode::A => 97,
            KeyCode::B => 98,
            KeyCode::C => 99,
            KeyCode::D => 100,
            KeyCode::E => 101,
            KeyCode::F => 102,
            KeyCode::G => 103,
            KeyCode::H => 104,
            KeyCode::I => 105,
            KeyCode::J => 106,
            KeyCode::K => 107,
            KeyCode::L => 108,
            KeyCode::M => 109,
            KeyCode::N => 110,
            KeyCode::O => 111,
            KeyCode::P => 112,
            KeyCode::Q => 113,
            KeyCode::R => 114,
            KeyCode::S => 115,
            KeyCode::T => 116,
            KeyCode::U => 117,
            KeyCode::V => 118,
            KeyCode::W => 119,
            KeyCode::X => 120,
            KeyCode::Y => 121,
            KeyCode::Z => 122,
            KeyCode::Delete => 127,
            KeyCode::CapsLock => 0x4000_0039,
            KeyCode::F1 => 0x4000_003A,
            KeyCode::F2 => 0x4000_003B,
            KeyCode::F3 => 0x4000_003C,
            KeyCode::F4 => 0x4000_003D,
            KeyCode::F5 => 0x4000_003E,
            KeyCode::F6 => 0x4000_003F,
            KeyCode::F7 => 0x4000_0040,
            KeyCode::F8 => 0x4000_0041,
            KeyCode::F9 => 0x4000_0042,
            KeyCode::F10 => 0x4000_0043,
            KeyCode::F11 => 0x4000_0044,
            KeyCode::F12 => 0x4000_0045,
            KeyCode::PrintScreen => 0x4000_0046,
            KeyCode::ScrollLock => 0x4000_0047,
            KeyCode::Pause => 0x4000_0048,
            KeyCode::Insert => 0x4000_0049,
            KeyCode::Home => 0x4000_004A,
            KeyCode::PageUp => 0x4000_004B,
            KeyCode::End => 0x4000_004D,
            KeyCode::PageDown => 0x4000_004E,
            KeyCode::Right => 0x4000_004F,
            KeyCode::Left => 0x4000_0050,
            KeyCode::Down => 0x4000_0051,
            KeyCode::Up => 0x4000_0052,
            KeyCode::NumLockClear => 0x4000_0053,
            KeyCode::KpDivide => 0x4000_0054,
            KeyCode::KpMultiply => 0x4000_0055,
            KeyCode::KpMinus => 0x4000_0056,
            KeyCode::KpPlus => 0x4000_0057,
            KeyCode::KpEnter => 0x4000_0058,
            KeyCode::Kp1 => 0x4000_0059,
            KeyCode::Kp2 => 0x4000_005A,
            KeyCode::Kp3 => 0x4000_005B,
            KeyCode::Kp4 => 0x4000_005C,
            KeyCode::Kp5 => 0x4000_005D,
            KeyCode::Kp6 => 0x4000_005E,
            KeyCode::Kp7 => 0x4000_005F,
            KeyCode::Kp8 => 0x4000_0060,
            KeyCode::Kp9 => 0x4000_0061,
            KeyCode::Kp0 => 0x4000_0062,
            KeyCode::KpPeriod => 0x4000_0063,
            KeyCode::Application => 0x4000_0065,
            KeyCode::Power => 0x4000_0066,
            KeyCode::KpEquals => 0x4000_0067,
            KeyCode::F13 => 0x4000_0068,
            KeyCode::F14 => 0x4000_0069,
            KeyCode::F15 => 0x4000_006A,
            KeyCode::F16 => 0x4000_006B,
            KeyCode::F17 => 0x4000_006C,
            KeyCode::F18 => 0x4000_006D,
            KeyCode::F19 => 0x4000_006E,
            KeyCode::F20 => 0x4000_006F,
            KeyCode::F21 => 0x4000_0070,
            KeyCode::F22 => 0x4000_0071,
            KeyCode::F23 => 0x4000_0072,
            KeyCode::F24 => 0x4000_0073,
            KeyCode::Execute => 0x4000_0074,
            KeyCode::Help => 0x4000_0075,
            KeyCode::Menu => 0x4000_0076,
            KeyCode::Select => 0x4000_0077,
            KeyCode::Stop => 0x4000_0078,
            KeyCode::Again => 0x4000_0079,
            KeyCode::Undo => 0x4000_007A,
            KeyCode::Cut => 0x4000_007B,
            KeyCode::Copy => 0x4000_007C,
            KeyCode::Paste => 0x4000_007D,
            KeyCode::Find => 0x4000_007E,
            KeyCode::Mute => 0x4000_007F,
            KeyCode::VolumeUp => 0x4000_0080,
            KeyCode::VolumeDown => 0x4000_0081,
            KeyCode::KpComma => 0x4000_0085,
            KeyCode::KpEqualsAS400 => 0x4000_0086,
            KeyCode::AltErase => 0x4000_0099,
            KeyCode::Sysreq => 0x4000_009A,
            KeyCode::Cancel => 0x4000_009B,
            KeyCode::Clear => 0x4000_009C,
            KeyCode::Prior => 0x4000_009D,
            KeyCode::Return2 => 0x4000_009E,
            KeyCode::Separator => 0x4000_009F,
            KeyCode::Out => 0x4000_00A0,
            KeyCode::Oper => 0x4000_00A1,
            KeyCode::ClearAgain => 0x4000_00A2,
            KeyCode::CrSel => 0x4000_00A3,
            KeyCode::ExSel => 0x4000_00A4,
            KeyCode::Kp00 => 0x4000_00B0,
            KeyCode::Kp000 => 0x4000_00B1,
            KeyCode::ThousandsSeparator => 0x4000_00B2,
            KeyCode::DecimalSeparator => 0x4000_00B3,
            KeyCode::CurrencyUnit => 0x4000_00B4,
            KeyCode::CurrencySubUnit => 0x4000_00B5,
            KeyCode::KpLeftParen => 0x4000_00B6,
            KeyCode::KpRightParen => 0x4000_00B7,
            KeyCode::KpLeftBrace => 0x4000_00B8,
            KeyCode::KpRightBrace => 0x4000_00B9,
            KeyCode::KpTab => 0x4000_00BA,
            KeyCode::KpBackspace => 0x4000_00BB,
            KeyCode::KpA => 0x4000_00BC,
            KeyCode::KpB => 0x4000_00BD,
            KeyCode::KpC => 0x4000_00BE,
            KeyCode::KpD => 0x4000_00BF,
            KeyCode::KpE => 0x4000_00C0,
            KeyCode::KpF => 0x4000_00C1,
            KeyCode::KpXor => 0x4000_00C2,
            KeyCode::KpPower => 0x4000_00C3,
            KeyCode::KpPercent => 0x4000_00C4,
            KeyCode::KpLess => 0x4000_00C5,
            KeyCode::KpGreater => 0x4000_00C6,
            KeyCode::KpAmpersand => 0x4000_00C7,
            KeyCode::KpDblAmpersand => 0x4000_00C8,
            KeyCode::KpVerticalBar => 0x4000_00C9,
            KeyCode::KpDblVerticalBar => 0x4000_00CA,
            KeyCode::KpColon => 0x4000_00CB,
            KeyCode::KpHash => 0x4000_00CC,
            KeyCode::KpSpace => 0x4000_00CD,
            KeyCode::KpAt => 0x4000_00CE,
            KeyCode::KpExclam => 0x4000_00CF,
            KeyCode::KpMemStore => 0x4000_00D0,
            KeyCode::KpMemRecall => 0x4000_00D1,
            KeyCode::KpMemClear => 0x4000_00D2,
            KeyCode::KpMemAdd => 0x4000_00D3,
            KeyCode::KpMemSubtract => 0x4000_00D4,
            KeyCode::KpMemMultiply => 0x4000_00D5,
            KeyCode::KpMemDivide => 0x4000_00D6,
            KeyCode::KpPlusMinus => 0x4000_00D7,
            KeyCode::KpCear => 0x4000_00D8,
            KeyCode::KpClearEntry => 0x4000_00D9,
            KeyCode::KpBinary => 0x4000_00DA,
            KeyCode::KpOctal => 0x4000_00DB,
            KeyCode::KpDecimal => 0x4000_00DC,
            KeyCode::KpHexadecimal => 0x4000_00DD,
            KeyCode::LCtrl => 0x4000_00E0,
            KeyCode::LShift => 0x4000_00E1,
            KeyCode::LAlt => 0x4000_00E2,
            KeyCode::LGui => 0x4000_00E3,
            KeyCode::RCtrl => 0x4000_00E4,
            KeyCode::RShift => 0x4000_00E5,
            KeyCode::RAlt => 0x4000_00E6,
            KeyCode::RGui => 0x4000_00E7,
            KeyCode::Mode => 0x4000_0101,
            KeyCode::AudioNext => 0x4000_0102,
            KeyCode::AudioPrev => 0x4000_0103,
            KeyCode::AudioStop => 0x4000_0104,
            KeyCode::AudioPlay => 0x4000_0105,
            KeyCode::AudioMute => 0x4000_0106,
            KeyCode::MediaSelect => 0x4000_0107,
            KeyCode::Www => 0x4000_0108,
            KeyCode::Mail => 0x4000_0109,
            KeyCode::Calculator => 0x4000_010A,
            KeyCode::Computer => 0x4000_010B,
            KeyCode::AcSearch => 0x4000_010C,
            KeyCode::AcHome => 0x4000_010D,
            KeyCode::AcBack => 0x4000_010E,
            KeyCode::AcForward => 0x4000_010F,
            KeyCode::AcStop => 0x4000_0110,
            KeyCode::AcRefresh => 0x4000_0111,
            KeyCode::AcBookmarks => 0x4000_0112,
            KeyCode::BrightnessDown => 0x4000_0113,
            KeyCode::BrightnessUp => 0x4000_0114,
            KeyCode::DisplaySwitch => 0x4000_0115,
            KeyCode::KbdIllumToggle => 0x4000_0116,
            KeyCode::KbdIllumDown => 0x4000_0117,
            KeyCode::KbdIllumUp => 0x4000_0118,
            KeyCode::Eject => 0x4000_0119,
            KeyCode::Sleep => 0x4000_011A,
        }
    }

    /// The key code as a signed 64-bit integer. Every key has one.
    pub fn to_i64(&self) -> (r: Option<i64>)
        ensures
            r == Some(self.code() as i64),
            r.unwrap() == self.code(),
    {
        Some(self.to_i32() as i64)
    }

    /// The key code as an unsigned 64-bit integer. Every key has one, since no
    /// key code is negative.
    pub fn to_u64(&self) -> (r: Option<u64>)
        ensures
            r == Some(self.code() as u64),
            r.unwrap() == self.code(),
    {
        Some(self.to_i32() as u64)
    }

    /// The key code as a signed integer of the machine's word size. Every key
    /// has one.
    pub fn to_int(&self) -> (r: Option<isize>)
        ensures
            r == Some(self.code() as isize),
            r.unwrap() == self.code(),
    {
        Some(self.to_i32() as isize)
    }

    /// The table behind [`KeyCode::from_i32`].
    fn lookup(n: i32) -> (r: Option<KeyCode>)
        ensures
            match r {
                Some(k) => k.code() == n,
                None => forall|k: KeyCode| k.code() != n,
            },
    {
        match n {
            0 => Some(KeyCode::Unknown),
            8 => Some(KeyCode::Backspace),
            9 => Some(KeyCode::Tab),
            13 => Some(KeyCode::Return),
            27 => Some(KeyCode::Escape),
            32 => Some(KeyCode::Space),
            33 => Some(KeyCode::Exclaim),
            34 => Some(KeyCode::Quotedbl),
            35 => Some(KeyCode::Hash),
            36 => Some(KeyCode::Dollar),
            37 => Some(KeyCode::Percent),
            38 => Some(KeyCode::Ampersand),
            39 => Some(KeyCode::Quote),
            40 => Some(KeyCode::LeftParen),
            41 => Some(KeyCode::RightParen),
            42 => Some(KeyCode::Asterisk),
            43 => Some(KeyCode::Plus),
            44 => Some(KeyCode::Comma),
            45 => Some(KeyCode::Minus),
            46 => Some(KeyCode::Period),
            47 => Some(KeyCode::Slash),
            48 => Some(KeyCode::Num0),
            49 => Some(KeyCode::Num1),
            50 => Some(KeyCode::Num2),
            51 => Some(KeyCode::Num3),
            52 => Some(KeyCode::Num4),
            53 => Some(KeyCode::Num5),
            54 => Some(KeyCode::Num6),
            55 => Some(KeyCode::Num7),
            56 => Some(KeyCode::Num8),
            57 => Some(KeyCode::Num9),
            58 => Some(KeyCode::Colon),
            59 => Some(KeyCode::Semicolon),
            60 => Some(KeyCode::Less),
            61 => Some(KeyCode::Equals),
            62 => Some(KeyCode::Greater),
            63 => Some(KeyCode::Question),
            64 => Some(KeyCode::At),
            91 => Some(KeyCode::LeftBracket),
            92 => Some(KeyCode::Backslash),
            93 => Some(KeyCode::RightBracket),
            94 => Some(KeyCode::Caret),
            95 => Some(KeyCode::Underscore),
            96 => Some(KeyCode::Backquote),
            97 => Some(KeyCode::A),
            98 => Some(KeyCode::B),
            99 => Some(KeyCode::C),
            100 => Some(KeyCode::D),
            101 => Some(KeyCode::E),
            102 => Some(KeyCode::F),
            103 => Some(KeyCode::G),
            104 => Some(KeyCode::H),
            105 => Some(KeyCode::I),
            106 => Some(KeyCode::J),
            107 => Some(KeyCode::K),
            108 => Some(KeyCode::L),
            109 => Some(KeyCode::M),
            110 => Some(KeyCode::N),
            111 => Some(KeyCode::O),
            112 => Some(KeyCode::P),
            113 => Some(KeyCode::Q),
            114 => Some(KeyCode::R),
            115 => Some(KeyCode::S),
            116 => Some(KeyCode::T),
            117 => Some(KeyCode::U),
            118 => Some(KeyCode::V),
            119 => Some(KeyCode::W),
            120 => Some(KeyCode::X),
            121 => Some(KeyCode::Y),
            122 => Some(KeyCode::Z),
            127 => Some(KeyCode::Delete),
            0x4000_0039 => Some(KeyCode::CapsLock),
            0x4000_003A => Some(KeyCode::F1),
            0x4000_003B => Some(KeyCode::F2),
            0x4000_003C => Some(KeyCode::F3),
            0x4000_003D => Some(KeyCode::F4),
            0x4000_003E => Some(KeyCode::F5),
            0x4000_003F => Some(KeyCode::F6),
            0x4000_0040 => Some(KeyCode::F7),
            0x4000_0041 => Some(KeyCode::F8),
            0x4000_0042 => Some(KeyCode::F9),
            0x4000_0043 => Some(KeyCode::F10),
            0x4000_0044 => Some(KeyCode::F11),
            0x4000_0045 => Some(KeyCode::F12),
            0x4000_0046 => Some(KeyCode::PrintScreen),
            0x4000_0047 => Some(KeyCode::ScrollLock),
            0x4000_0048 => Some(KeyCode::Pause),
            0x4000_0049 => Some(KeyCode::Insert),
            0x4000_004A => Some(KeyCode::Home),
            0x4000_004B => Some(KeyCode::PageUp),
            0x4000_004D => Some(KeyCode::End),
            0x4000_004E => Some(KeyCode::PageDown),
            0x4000_004F => Some(KeyCode::Right),
            0x4000_0050 => Some(KeyCode::Left),
            0x4000_0051 => Some(KeyCode::Down),
            0x4000_0052 => Some(KeyCode::Up),
            0x4000_0053 => Some(KeyCode::NumLockClear),
            0x4000_0054 => Some(KeyCode::KpDivide),
            0x4000_0055 => Some(KeyCode::KpMultiply),
            0x4000_0056 => Some(KeyCode::KpMinus),
            0x4000_0057 => Some(KeyCode::KpPlus),
            0x4000_0058 => Some(KeyCode::KpEnter),
            0x4000_0059 => Some(KeyCode::Kp1),
            0x4000_005A => Some(KeyCode::Kp2),
            0x4000_005B => Some(KeyCode::Kp3),
            0x4000_005C => Some(KeyCode::Kp4),
            0x4000_005D => Some(KeyCode::Kp5),
            0x4000_005E => Some(KeyCode::Kp6),
            0x4000_005F => Some(KeyCode::Kp7),
            0x4000_0060 => Some(KeyCode::Kp8),
            0x4000_0061 => Some(KeyCode::Kp9),
            0x4000_0062 => Some(KeyCode::Kp0),
            0x4000_0063 => Some(KeyCode::KpPeriod),
            0x4000_0065 => Some(KeyCode::Application),
            0x4000_0066 => Some(KeyCode::Power),
            0x4000_0067 => Some(KeyCode::KpEquals),
            0x4000_0068 => Some(KeyCode::F13),
            0x4000_0069 => Some(KeyCode::F14),
            0x4000_006A => Some(KeyCode::F15),
            0x4000_006B => Some(KeyCode::F16),
            0x4000_006C => Some(KeyCode::F17),
            0x4000_006D => Some(KeyCode::F18),
            0x4000_006E => Some(KeyCode::F19),
            0x4000_006F => Some(KeyCode::F20),
            0x4000_0070 => Some(KeyCode::F21),
            0x4000_0071 => Some(KeyCode::F22),
            0x4000_0072 => Some(KeyCode::F23),
            0x4000_0073 => Some(KeyCode::F24),
            0x4000_0074 => Some(KeyCode::Execute),
            0x4000_0075 => Some(KeyCode::Help),
            0x4000_0076 => Some(KeyCode::Menu),
            0x4000_0077 => Some(KeyCode::Select),
            0x4000_0078 => Some(KeyCode::Stop),
            0x4000_0079 => Some(KeyCode::Again),
            0x4000_007A => Some(KeyCode::Undo),
            0x4000_007B => Some(KeyCode::Cut),
            0x4000_007C => Some(KeyCode::Copy),
            0x4000_007D => Some(KeyCode::Paste),
            0x4000_007E => Some(KeyCode::Find),
            0x4000_007F => Some(KeyCode::Mute),
            0x4000_0080 => Some(KeyCode::VolumeUp),
            0x4000_0081 => Some(KeyCode::VolumeDown),
            0x4000_0085 => Some(KeyCode::KpComma),
            0x4000_0086 => Some(KeyCode::KpEqualsAS400),
            0x4000_0099 => Some(KeyCode::AltErase),
            0x4000_009A => Some(KeyCode::Sysreq),
            0x4000_009B => Some(KeyCode::Cancel),
            0x4000_009C => Some(KeyCode::Clear),
            0x4000_009D => Some(KeyCode::Prior),
            0x4000_009E => Some(KeyCode::Return2),
            0x4000_009F => Some(KeyCode::Separator),
            0x4000_00A0 => Some(KeyCode::Out),
            0x4000_00A1 => Some(KeyCode::Oper),
            0x4000_00A2 => Some(KeyCode::ClearAgain),
            0x4000_00A3 => Some(KeyCode::CrSel),
            0x4000_00A4 => Some(KeyCode::ExSel),
            0x4000_00B0 => Some(KeyCode::Kp00),
            0x4000_00B1 => Some(KeyCode::Kp000),
            0x4000_00B2 => Some(KeyCode::ThousandsSeparator),
            0x4000_00B3 => Some(KeyCode::DecimalSeparator),
            0x4000_00B4 => Some(KeyCode::CurrencyUnit),
            0x4000_00B5 => Some(KeyCode::CurrencySubUnit),
            0x4000_00B6 => Some(KeyCode::KpLeftParen),
            0x4000_00B7 => Some(KeyCode::KpRightParen),
            0x4000_00B8 => Some(KeyCode::KpLeftBrace),
            0x4000_00B9 => Some(KeyCode::KpRightBrace),
            0x4000_00BA => Some(KeyCode::KpTab),
            0x4000_00BB => Some(KeyCode::KpBackspace),
            0x4000_00BC => Some(KeyCode::KpA),
            0x4000_00BD => Some(KeyCode::KpB),
            0x4000_00BE => Some(KeyCode::KpC),
            0x4000_00BF => Some(KeyCode::KpD),
            0x4000_00C0 => Some(KeyCode::KpE),
            0x4000_00C1 => Some(KeyCode::KpF),
            0x4000_00C2 => Some(KeyCode::KpXor),
            0x4000_00C3 => Some(KeyCode::KpPower),
            0x4000_00C4 => Some(KeyCode::KpPercent),
            0x4000_00C5 => Some(KeyCode::KpLess),
            0x4000_00C6 => Some(KeyCode::KpGreater),
            0x4000_00C7 => Some(KeyCode::KpAmpersand),
            0x4000_00C8 => Some(KeyCode::KpDblAmpersand),
            0x4000_00C9 => Some(KeyCode::KpVerticalBar),
            0x4000_00CA => Some(KeyCode::KpDblVerticalBar),
            0x4000_00CB => Some(KeyCode::KpColon),
            0x4000_00CC => Some(KeyCode::KpHash),
            0x4000_00CD => Some(KeyCode::KpSpace),
            0x4000_00CE => Some(KeyCode::KpAt),
            0x4000_00CF => Some(KeyCode::KpExclam),
            0x4000_00D0 => Some(KeyCode::KpMemStore),
            0x4000_00D1 => Some(KeyCode::KpMemRecall),
            0x4000_00D2 => Some(KeyCode::KpMemClear),
            0x4000_00D3 => Some(KeyCode::KpMemAdd),
            0x4000_00D4 => Some(KeyCode::KpMemSubtract),
            0x4000_00D5 => Some(KeyCode::KpMemMultiply),
            0x4000_00D6 => Some(KeyCode::KpMemDivide),
            0x4000_00D7 => Some(KeyCode::KpPlusMinus),
            0x4000_00D8 => Some(KeyCode::KpCear),
            0x4000_00D9 => Some(KeyCode::KpClearEntry),
            0x4000_00DA => Some(KeyCode::KpBinary),
            0x4000_00DB => Some(KeyCode::KpOctal),
            0x4000_00DC => Some(KeyCode::KpDecimal),
            0x4000_00DD => Some(KeyCode::KpHexadecimal),
            0x4000_00E0 => Some(KeyCode::LCtrl),
            0x4000_00E1 => Some(KeyCode::LShift),
            0x4000_00E2 => Some(KeyCode::LAlt),
            0x4000_00E3 => Some(KeyCode::LGui),
            0x4000_00E4 => Some(KeyCode::RCtrl),
            0x4000_00E5 => Some(KeyCode::RShift),
            0x4000_00E6 => Some(KeyCode::RAlt),
            0x4000_00E7 => Some(KeyCode::RGui),
            0x4000_0101 => Some(KeyCode::Mode),
            0x4000_0102 => Some(KeyCode::AudioNext),
            0x4000_0103 => Some(KeyCode::AudioPrev),
            0x4000_0104 => Some(KeyCode::AudioStop),
            0x4000_0105 => Some(KeyCode::AudioPlay),
            0x4000_0106 => Some(KeyCode::AudioMute),
            0x4000_0107 => Some(KeyCode::MediaSelect),
            0x4000_0108 => Some(KeyCode::Www),
            0x4000_0109 => Some(KeyCode::Mail),
            0x4000_010A => Some(KeyCode::Calculator),
            0x4000_010B => Some(KeyCode::Computer),
            0x4000_010C => Some(KeyCode::AcSearch),
            0x4000_010D => Some(KeyCode::AcHome),
            0x4000_010E => Some(KeyCode::AcBack),
            0x4000_010F => Some(KeyCode::AcForward),
            0x4000_0110 => Some(KeyCode::AcStop),
            0x4000_0111 => Some(KeyCode::AcRefresh),
            0x4000_0112 => Some(KeyCode::AcBookmarks),
            0x4000_0113 => Some(KeyCode::BrightnessDown),
            0x4000_0114 => Some(KeyCode::BrightnessUp),
            0x4000_0115 => Some(KeyCode::DisplaySwitch),
            0x4000_0116 => Some(KeyCode::KbdIllumToggle),
            0x4000_0117 => Some(KeyCode::KbdIllumDown),
            0x4000_0118 => Some(KeyCode::KbdIllumUp),
            0x4000_0119 => Some(KeyCode::Eject),
            0x4000_011A => Some(KeyCode::Sleep),
            _ => None,
        }
    }

    /// The key that SDL reports as `n`, or `None` where `n` is the code of no
    /// key.
    pub fn from_i32(n: i32) -> (r: Option<KeyCode>)
        ensures
            r == KeyCode::from_code(n as int),
            match r {
                Some(k) => k.code() == n,
                None => forall|k: KeyCode| k.code() != n,
            },
    {
        let r = KeyCode::lookup(n);
        proof {
            lemma_from_code_unique(n as int, r);
        }
        r
    }

    /// As [`KeyCode::from_i32`], for a signed 64-bit integer.
    pub fn from_i64(n: i64) -> (r: Option<KeyCode>)
        ensures
            r == KeyCode::from_code(n as int),
            match r {
                Some(k) => k.code() == n,
                None => forall|k: KeyCode| k.code() != n,
            },
    {
        if -0x8000_0000 <= n && n <= 0x7FFF_FFFF {
            KeyCode::from_i32(n as i32)
        } else {
            None
        }
    }

    /// As [`KeyCode::from_i32`], for an unsigned 64-bit integer.
    pub fn from_u64(n: u64) -> (r: Option<KeyCode>)
        ensures
            r == KeyCode::from_code(n as int),
            match r {
                Some(k) => k.code() == n,
                None => forall|k: KeyCode| k.code() != n,
            },
    {
        if n <= 0x7FFF_FFFF {
            KeyCode::from_i32(n as i32)
        } else {
            None
        }
    }

    /// As [`KeyCode::from_i32`], for a signed integer of the machine's word
    /// size.
    pub fn from_int(n: isize) -> (r: Option<KeyCode>)
        ensures
            r == KeyCode::from_code(n as int),
            match r {
                Some(k) => k.code() == n,
                None => forall|k: KeyCode| k.code() != n,
            },
    {
        if -0x8000_0000 <= n && n <= 0x7FFF_FFFF {
            KeyCode::from_i32(n as i32)
        } else {
            None
        }
    }
}

impl Hash for KeyCode {
    /// Feeds the hasher the key code as an `i32`, so that a key hashes as its
    /// code does.
    fn hash<H: Hasher>(&self, state: &mut H) {
        hash_i32(self.to_i32(), state)
    }
}

/// `<i32 as Hash>::hash`: feeds `v` to `state`. What that does to the hasher
/// is the hasher's own business, and nothing is claimed of it.
#[verifier::external_body]
fn hash_i32<H: Hasher>(v: i32, state: &mut H) {
    v.hash(state)
}

} // verus!
