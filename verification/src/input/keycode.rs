//! Keyboard keys.

use vstd::prelude::*;

verus! {

/// A physical key on the keyboard, named by its position on a US layout.
///
/// Every key has a scancode, the number under which the windowing backend
/// reports it. Keys are listed in the order of their scancodes.
#[derive(Debug, Clone, Copy, PartialEq, Eq, Structural, PartialOrd, Ord, Hash)]
pub enum KeyCode {
    /// Scancode 4.
    A,
    /// Scancode 5.
    B,
    /// Scancode 6.
    C,
    /// Scancode 7.
    D,
    /// Scancode 8.
    E,
    /// Scancode 9.
    F,
    /// Scancode 10.
    G,
    /// Scancode 11.
    H,
    /// Scancode 12.
    I,
    /// Scancode 13.
    J,
    /// Scancode 14.
    K,
    /// Scancode 15.
    L,
    /// Scancode 16.
    M,
    /// Scancode 17.
    N,
    /// Scancode 18.
    O,
    /// Scancode 19.
    P,
    /// Scancode 20.
    Q,
    /// Scancode 21.
    R,
    /// Scancode 22.
    S,
    /// Scancode 23.
    T,
    /// Scancode 24.
    U,
    /// Scancode 25.
    V,
    /// Scancode 26.
    W,
    /// Scancode 27.
    X,
    /// Scancode 28.
    Y,
    /// Scancode 29.
    Z,
    /// Scancode 30.
    Num1,
    /// Scancode 31.
    Num2,
    /// Scancode 32.
    Num3,
    /// Scancode 33.
    Num4,
    /// Scancode 34.
    Num5,
    /// Scancode 35.
    Num6,
    /// Scancode 36.
    Num7,
    /// Scancode 37.
    Num8,
    /// Scancode 38.
    Num9,
    /// Scancode 39.
    Num0,
    /// Scancode 40.
    Return,
    /// Scancode 41.
    Escape,
    /// Scancode 42.
    Backspace,
    /// Scancode 43.
    Tab,
    /// Scancode 44.
    Space,
    /// Scancode 45.
    Minus,
    /// Scancode 46.
    Equals,
    /// Scancode 47.
    LeftBracket,
    /// Scancode 48.
    RightBracket,
    /// Scancode 49.
    Backslash,
    /// Scancode 50.
    NonUsHash,
    /// Scancode 51.
    Semicolon,
    /// Scancode 52.
    Apostrophe,
    /// Scancode 53.
    Grave,
    /// Scancode 54.
    Comma,
    /// Scancode 55.
    Period,
    /// Scancode 56.
    Slash,
    /// Scancode 57.
    CapsLock,
    /// Scancode 58.
    F1,
    /// Scancode 59.
    F2,
    /// Scancode 60.
    F3,
    /// Scancode 61.
    F4,
    /// Scancode 62.
    F5,
    /// Scancode 63.
    F6,
    /// Scancode 64.
    F7,
    /// Scancode 65.
    F8,
    /// Scancode 66.
    F9,
    /// Scancode 67.
    F10,
    /// Scancode 68.
    F11,
    /// Scancode 69.
    F12,
    /// Scancode 70.
    PrintScreen,
    /// Scancode 71.
    ScrollLock,
    /// Scancode 72.
    Pause,
    /// Scancode 73.
    Insert,
    /// Scancode 74.
    Home,
    /// Scancode 75.
    PageUp,
    /// Scancode 76.
    Delete,
    /// Scancode 77.
    End,
    /// Scancode 78.
    PageDown,
    /// Scancode 79.
    Right,
    /// Scancode 80.
    Left,
    /// Scancode 81.
    Down,
    /// Scancode 82.
    Up,
    /// Scancode 83.
    NumLockClear,
    /// Scancode 84.
    KpDivide,
    /// Scancode 85.
    KpMultiply,
    /// Scancode 86.
    KpMinus,
    /// Scancode 87.
    KpPlus,
    /// Scancode 88.
    KpEnter,
    /// Scancode 89.
    Kp1,
    /// Scancode 90.
    Kp2,
    /// Scancode 91.
    Kp3,
    /// Scancode 92.
    Kp4,
    /// Scancode 93.
    Kp5,
    /// Scancode 94.
    Kp6,
    /// Scancode 95.
    Kp7,
    /// Scancode 96.
    Kp8,
    /// Scancode 97.
    Kp9,
    /// Scancode 98.
    Kp0,
    /// Scancode 99.
    KpPeriod,
    /// Scancode 100.
    NonUsBackslash,
    /// Scancode 101.
    Application,
    /// Scancode 102.
    Power,
    /// Scancode 103.
    KpEquals,
    /// Scancode 104.
    F13,
    /// Scancode 105.
    F14,
    /// Scancode 106.
    F15,
    /// Scancode 107.
    F16,
    /// Scancode 108.
    F17,
    /// Scancode 109.
    F18,
    /// Scancode 110.
    F19,
    /// Scancode 111.
    F20,
    /// Scancode 112.
    F21,
    /// Scancode 113.
    F22,
    /// Scancode 114.
    F23,
    /// Scancode 115.
    F24,
    /// Scancode 224.
    LCtrl,
    /// Scancode 225.
    LShift,
    /// Scancode 226.
    LAlt,
    /// Scancode 227.
    LGui,
    /// Scancode 228.
    RCtrl,
    /// Scancode 229.
    RShift,
    /// Scancode 230.
    RAlt,
    /// Scancode 231.
    RGui,
}

impl KeyCode {
    /// The scancode of this key.
    pub open spec fn spec_scancode(self) -> u32 {
        match self {
            KeyCode::A => 4,
            KeyCode::B => 5,
            KeyCode::C => 6,
            KeyCode::D => 7,
            KeyCode::E => 8,
            KeyCode::F => 9,
            KeyCode::G => 10,
            KeyCode::H => 11,
            KeyCode::I => 12,
            KeyCode::J => 13,
            KeyCode::K => 14,
            KeyCode::L => 15,
            KeyCode::M => 16,
            KeyCode::N => 17,
            KeyCode::O => 18,
            KeyCode::P => 19,
            KeyCode::Q => 20,
            KeyCode::R => 21,
            KeyCode::S => 22,
            KeyCode::T => 23,
            KeyCode::U => 24,
            KeyCode::V => 25,
            KeyCode::W => 26,
            KeyCode::X => 27,
            KeyCode::Y => 28,
            KeyCode::Z => 29,
            KeyCode::Num1 => 30,
            KeyCode::Num2 => 31,
            KeyCode::Num3 => 32,
            KeyCode::Num4 => 33,
            KeyCode::Num5 => 34,
            KeyCode::Num6 => 35,
            KeyCode::Num7 => 36,
            KeyCode::Num8 => 37,
            KeyCode::Num9 => 38,
            KeyCode::Num0 => 39,
            KeyCode::Return => 40,
            KeyCode::Escape => 41,
            KeyCode::Backspace => 42,
            KeyCode::Tab => 43,
            KeyCode::Space => 44,
            KeyCode::Minus => 45,
            KeyCode::Equals => 46,
            KeyCode::LeftBracket => 47,
            KeyCode::RightBracket => 48,
            KeyCode::Backslash => 49,
            KeyCode::NonUsHash => 50,
            KeyCode::Semicolon => 51,
            KeyCode::Apostrophe => 52,
            KeyCode::Grave => 53,
            KeyCode::Comma => 54,
            KeyCode::Period => 55,
            KeyCode::Slash => 56,
            KeyCode::CapsLock => 57,
            KeyCode::F1 => 58,
            KeyCode::F2 => 59,
            KeyCode::F3 => 60,
            KeyCode::F4 => 61,
            KeyCode::F5 => 62,
            KeyCode::F6 => 63,
            KeyCode::F7 => 64,
            KeyCode::F8 => 65,
            KeyCode::F9 => 66,
            KeyCode::F10 => 67,
            KeyCode::F11 => 68,
            KeyCode::F12 => 69,
            KeyCode::PrintScreen => 70,
            KeyCode::ScrollLock => 71,
            KeyCode::Pause => 72,
            KeyCode::Insert => 73,
            KeyCode::Home => 74,
            KeyCode::PageUp => 75,
            KeyCode::Delete => 76,
            KeyCode::End => 77,
            KeyCode::PageDown => 78,
            KeyCode::Right => 79,
            KeyCode::Left => 80,
            KeyCode::Down => 81,
            KeyCode::Up => 82,
            KeyCode::NumLockClear => 83,
            KeyCode::KpDivide => 84,
            KeyCode::KpMultiply => 85,
            KeyCode::KpMinus => 86,
            KeyCode::KpPlus => 87,
            KeyCode::KpEnter => 88,
            KeyCode::Kp1 => 89,
            KeyCode::Kp2 => 90,
            KeyCode::Kp3 => 91,
            KeyCode::Kp4 => 92,
            KeyCode::Kp5 => 93,
            KeyCode::Kp6 => 94,
            KeyCode::Kp7 => 95,
            KeyCode::Kp8 => 96,
            KeyCode::Kp9 => 97,
            KeyCode::Kp0 => 98,
            KeyCode::KpPeriod => 99,
            KeyCode::NonUsBackslash => 100,
            KeyCode::Application => 101,
            KeyCode::Power => 102,
            KeyCode::KpEquals => 103,
            KeyCode::F13 => 104,
            KeyCode::F14 => 105,
            KeyCode::F15 => 106,
            KeyCode::F16 => 107,
            KeyCode::F17 => 108,
            KeyCode::F18 => 109,
            KeyCode::F19 => 110,
            KeyCode::F20 => 111,
            KeyCode::F21 => 112,
            KeyCode::F22 => 113,
            KeyCode::F23 => 114,
            KeyCode::F24 => 115,
            KeyCode::LCtrl => 224,
            KeyCode::LShift => 225,
            KeyCode::LAlt => 226,
            KeyCode::LGui => 227,
            KeyCode::RCtrl => 228,
            KeyCode::RShift => 229,
            KeyCode::RAlt => 230,
            KeyCode::RGui => 231,
        }
    }

    /// The key with the given scancode, if there is one.
    pub open spec fn spec_from_scancode(code: u32) -> Option<KeyCode> {
        if exists|key: KeyCode| key.spec_scancode() == code {
            Some(choose|key: KeyCode| key.spec_scancode() == code)
        } else {
            None
        }
    }

    /// The scancode of this key.
    #[must_use]
    pub fn scancode(self) -> (code: u32)
        ensures
            code == self.spec_scancode(),
            KeyCode::spec_from_scancode(code) == Some(self),
    {
        proof {
            Self::lemma_scancode_injective(self);
        }
        match self {
            KeyCode::A => 4,
            KeyCode::B => 5,
            KeyCode::C => 6,
            KeyCode::D => 7,
            KeyCode::E => 8,
            KeyCode::F => 9,
            KeyCode::G => 10,
            KeyCode::H => 11,
            KeyCode::I => 12,
            KeyCode::J => 13,
            KeyCode::K => 14,
            KeyCode::L => 15,
            KeyCode::M => 16,
            KeyCode::N => 17,
            KeyCode::O => 18,
            KeyCode::P => 19,
            KeyCode::Q => 20,
            KeyCode::R => 21,
            KeyCode::S => 22,
            KeyCode::T => 23,
            KeyCode::U => 24,
            KeyCode::V => 25,
            KeyCode::W => 26,
            KeyCode::X => 27,
            KeyCode::Y => 28,
            KeyCode::Z => 29,
            KeyCode::Num1 => 30,
            KeyCode::Num2 => 31,
            KeyCode::Num3 => 32,
            KeyCode::Num4 => 33,
            KeyCode::Num5 => 34,
            KeyCode::Num6 => 35,
            KeyCode::Num7 => 36,
            KeyCode::Num8 => 37,
            KeyCode::Num9 => 38,
            KeyCode::Num0 => 39,
            KeyCode::Return => 40,
            KeyCode::Escape => 41,
            KeyCode::Backspace => 42,
            KeyCode::Tab => 43,
            KeyCode::Space => 44,
            KeyCode::Minus => 45,
            KeyCode::Equals => 46,
            KeyCode::LeftBracket => 47,
            KeyCode::RightBracket => 48,
            KeyCode::Backslash => 49,
            KeyCode::NonUsHash => 50,
            KeyCode::Semicolon => 51,
            KeyCode::Apostrophe => 52,
            KeyCode::Grave => 53,
            KeyCode::Comma => 54,
            KeyCode::Period => 55,
            KeyCode::Slash => 56,
            KeyCode::CapsLock => 57,
            KeyCode::F1 => 58,
            KeyCode::F2 => 59,
            KeyCode::F3 => 60,
            KeyCode::F4 => 61,
            KeyCode::F5 => 62,
            KeyCode::F6 => 63,
            KeyCode::F7 => 64,
            KeyCode::F8 => 65,
            KeyCode::F9 => 66,
            KeyCode::F10 => 67,
            KeyCode::F11 => 68,
            KeyCode::F12 => 69,
            KeyCode::PrintScreen => 70,
            KeyCode::ScrollLock => 71,
            KeyCode::Pause => 72,
            KeyCode::Insert => 73,
            KeyCode::Home => 74,
            KeyCode::PageUp => 75,
            KeyCode::Delete => 76,
            KeyCode::End => 77,
            KeyCode::PageDown => 78,
            KeyCode::Right => 79,
            KeyCode::Left => 80,
            KeyCode::Down => 81,
            KeyCode::Up => 82,
            KeyCode::NumLockClear => 83,
            KeyCode::KpDivide => 84,
            KeyCode::KpMultiply => 85,
            KeyCode::KpMinus => 86,
            KeyCode::KpPlus => 87,
            KeyCode::KpEnter => 88,
            KeyCode::Kp1 => 89,
            KeyCode::Kp2 => 90,
            KeyCode::Kp3 => 91,
            KeyCode::Kp4 => 92,
            KeyCode::Kp5 => 93,
            KeyCode::Kp6 => 94,
            KeyCode::Kp7 => 95,
            KeyCode::Kp8 => 96,
            KeyCode::Kp9 => 97,
            KeyCode::Kp0 => 98,
            KeyCode::KpPeriod => 99,
            KeyCode::NonUsBackslash => 100,
            KeyCode::Application => 101,
            KeyCode::Power => 102,
            KeyCode::KpEquals => 103,
            KeyCode::F13 => 104,
            KeyCode::F14 => 105,
            KeyCode::F15 => 106,
            KeyCode::F16 => 107,
            KeyCode::F17 => 108,
            KeyCode::F18 => 109,
            KeyCode::F19 => 110,
            KeyCode::F20 => 111,
            KeyCode::F21 => 112,
            KeyCode::F22 => 113,
            KeyCode::F23 => 114,
            KeyCode::F24 => 115,
            KeyCode::LCtrl => 224,
            KeyCode::LShift => 225,
            KeyCode::LAlt => 226,
            KeyCode::LGui => 227,
            KeyCode::RCtrl => 228,
            KeyCode::RShift => 229,
            KeyCode::RAlt => 230,
            KeyCode::RGui => 231,
        }
    }

    /// The key with the given scancode. Scancodes that name no key give
    /// `None`.
    #[must_use]
    pub fn from_scancode(code: u32) -> (key: Option<KeyCode>)
        ensures
            key == KeyCode::spec_from_scancode(code),
            key matches Some(k) ==> k.spec_scancode() == code,
            key is None ==> forall|k: KeyCode| k.spec_scancode() != code,
    {
        let key = match code {
            4 => Some(KeyCode::A),
            5 => Some(KeyCode::B),
            6 => Some(KeyCode::C),
            7 => Some(KeyCode::D),
            8 => Some(KeyCode::E),
            9 => Some(KeyCode::F),
            10 => Some(KeyCode::G),
            11 => Some(KeyCode::H),
            12 => Some(KeyCode::I),
            13 => Some(KeyCode::J),
            14 => Some(KeyCode::K),
            15 => Some(KeyCode::L),
            16 => Some(KeyCode::M),
            17 => Some(KeyCode::N),
            18 => Some(KeyCode::O),
            19 => Some(KeyCode::P),
            20 => Some(KeyCode::Q),
            21 => Some(KeyCode::R),
            22 => Some(KeyCode::S),
            23 => Some(KeyCode::T),
            24 => Some(KeyCode::U),
            25 => Some(KeyCode::V),
            26 => Some(KeyCode::W),
            27 => Some(KeyCode::X),
            28 => Some(KeyCode::Y),
            29 => Some(KeyCode::Z),
            30 => Some(KeyCode::Num1),
            31 => Some(KeyCode::Num2),
            32 => Some(KeyCode::Num3),
            33 => Some(KeyCode::Num4),
            34 => Some(KeyCode::Num5),
            35 => Some(KeyCode::Num6),
            36 => Some(KeyCode::Num7),
            37 => Some(KeyCode::Num8),
            38 => Some(KeyCode::Num9),
            39 => Some(KeyCode::Num0),
            40 => Some(KeyCode::Return),
            41 => Some(KeyCode::Escape),
            42 => Some(KeyCode::Backspace),
            43 => Some(KeyCode::Tab),
            44 => Some(KeyCode::Space),
            45 => Some(KeyCode::Minus),
            46 => Some(KeyCode::Equals),
            47 => Some(KeyCode::LeftBracket),
            48 => Some(KeyCode::RightBracket),
            49 => Some(KeyCode::Backslash),
            50 => Some(KeyCode::NonUsHash),
            51 => Some(KeyCode::Semicolon),
            52 => Some(KeyCode::Apostrophe),
            53 => Some(KeyCode::Grave),
            54 => Some(KeyCode::Comma),
            55 => Some(KeyCode::Period),
            56 => Some(KeyCode::Slash),
            57 => Some(KeyCode::CapsLock),
            58 => Some(KeyCode::F1),
            59 => Some(KeyCode::F2),
            60 => Some(KeyCode::F3),
            61 => Some(KeyCode::F4),
            62 => Some(KeyCode::F5),
            63 => Some(KeyCode::F6),
            64 => Some(KeyCode::F7),
            65 => Some(KeyCode::F8),
            66 => Some(KeyCode::F9),
            67 => Some(KeyCode::F10),
            68 => Some(KeyCode::F11),
            69 => Some(KeyCode::F12),
            70 => Some(KeyCode::PrintScreen),
            71 => Some(KeyCode::ScrollLock),
            72 => Some(KeyCode::Pause),
            73 => Some(KeyCode::Insert),
            74 => Some(KeyCode::Home),
            75 => Some(KeyCode::PageUp),
            76 => Some(KeyCode::Delete),
            77 => Some(KeyCode::End),
            78 => Some(KeyCode::PageDown),
            79 => Some(KeyCode::Right),
            80 => Some(KeyCode::Left),
            81 => Some(KeyCode::Down),
            82 => Some(KeyCode::Up),
            83 => Some(KeyCode::NumLockClear),
            84 => Some(KeyCode::KpDivide),
            85 => Some(KeyCode::KpMultiply),
            86 => Some(KeyCode::KpMinus),
            87 => Some(KeyCode::KpPlus),
            88 => Some(KeyCode::KpEnter),
            89 => Some(KeyCode::Kp1),
            90 => Some(KeyCode::Kp2),
            91 => Some(KeyCode::Kp3),
            92 => Some(KeyCode::Kp4),
            93 => Some(KeyCode::Kp5),
            94 => Some(KeyCode::Kp6),
            95 => Some(KeyCode::Kp7),
            96 => Some(KeyCode::Kp8),
            97 => Some(KeyCode::Kp9),
            98 => Some(KeyCode::Kp0),
            99 => Some(KeyCode::KpPeriod),
            100 => Some(KeyCode::NonUsBackslash),
            101 => Some(KeyCode::Application),
            102 => Some(KeyCode::Power),
            103 => Some(KeyCode::KpEquals),
            104 => Some(KeyCode::F13),
            105 => Some(KeyCode::F14),
            106 => Some(KeyCode::F15),
            107 => Some(KeyCode::F16),
            108 => Some(KeyCode::F17),
            109 => Some(KeyCode::F18),
            110 => Some(KeyCode::F19),
            111 => Some(KeyCode::F20),
            112 => Some(KeyCode::F21),
            113 => Some(KeyCode::F22),
            114 => Some(KeyCode::F23),
            115 => Some(KeyCode::F24),
            224 => Some(KeyCode::LCtrl),
            225 => Some(KeyCode::LShift),
            226 => Some(KeyCode::LAlt),
            227 => Some(KeyCode::LGui),
            228 => Some(KeyCode::RCtrl),
            229 => Some(KeyCode::RShift),
            230 => Some(KeyCode::RAlt),
            231 => Some(KeyCode::RGui),
            _ => None,
        };
        proof {
            match key {
                Some(k) => {
                    Self::lemma_scancode_injective(k);
                },
                None => {
                    assert forall|k: KeyCode| k.spec_scancode() != code by {
                        Self::lemma_scancode_range(k);
                    }
                },
            }
        }
        key
    }

    /// Scancodes lie in 4..=115 or in 224..=231.
    pub proof fn lemma_scancode_range(key: KeyCode)
        ensures
            4 <= key.spec_scancode() <= 115 || 224 <= key.spec_scancode() <= 231,
    {
    }

    /// No two keys share a scancode, so a scancode names at most one key.
    pub proof fn lemma_scancode_injective(key: KeyCode)
        ensures
            forall|other: KeyCode| other.spec_scancode() == key.spec_scancode() ==> other == key,
            KeyCode::spec_from_scancode(key.spec_scancode()) == Some(key),
    {
        assert forall|other: KeyCode| other.spec_scancode() == key.spec_scancode() implies other
            == key by {
            Self::lemma_distinct(other, key);
        }
    }

    proof fn lemma_distinct(a: KeyCode, b: KeyCode)
        requires
            a.spec_scancode() == b.spec_scancode(),
        ensures
            a == b,
    {
    }
}

} // verus!
