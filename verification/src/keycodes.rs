use vstd::prelude::*;
use crate::keys::{Backend, Button, Key};

verus! {

/// The largest key code that the Quartz backend accepts.
pub const QUARTZ_KEY_CODE_MAX: u32 = 0xffff;

/// The X11 key code of each key, where it has one.
pub open spec fn x11_key_code(key: Key) -> Option<u32> {
    match key {
        Key::Alt => Some(64),
        Key::AltGr => Some(108),
        Key::Backspace => Some(22),
        Key::CapsLock => Some(66),
        Key::ControlLeft => Some(37),
        Key::ControlRight => Some(105),
        Key::Delete => Some(119),
        Key::DownArrow => Some(116),
        Key::End => Some(115),
        Key::Escape => Some(9),
        Key::F1 => Some(67),
        Key::F10 => Some(76),
        Key::F11 => Some(95),
        Key::F12 => Some(96),
        Key::F2 => Some(68),
        Key::F3 => Some(69),
        Key::F4 => Some(70),
        Key::F5 => Some(71),
        Key::F6 => Some(72),
        Key::F7 => Some(73),
        Key::F8 => Some(74),
        Key::F9 => Some(75),
        Key::Home => Some(110),
        Key::LeftArrow => Some(113),
        Key::MetaLeft => Some(133),
        Key::MetaRight => Some(134),
        Key::PageDown => Some(117),
        Key::PageUp => Some(112),
        Key::Return => Some(36),
        Key::RightArrow => Some(114),
        Key::ShiftLeft => Some(50),
        Key::ShiftRight => Some(62),
        Key::Space => Some(65),
        Key::Tab => Some(23),
        Key::UpArrow => Some(111),
        Key::PrintScreen => Some(107),
        Key::ScrollLock => Some(78),
        Key::Pause => Some(127),
        Key::NumLock => Some(77),
        Key::BackQuote => Some(49),
        Key::Num1 => Some(10),
        Key::Num2 => Some(11),
        Key::Num3 => Some(12),
        Key::Num4 => Some(13),
        Key::Num5 => Some(14),
        Key::Num6 => Some(15),
        Key::Num7 => Some(16),
        Key::Num8 => Some(17),
        Key::Num9 => Some(18),
        Key::Num0 => Some(19),
        Key::Minus => Some(20),
        Key::Equal => Some(21),
        Key::KeyQ => Some(24),
        Key::KeyW => Some(25),
        Key::KeyE => Some(26),
        Key::KeyR => Some(27),
        Key::KeyT => Some(28),
        Key::KeyY => Some(29),
        Key::KeyU => Some(30),
        Key::KeyI => Some(31),
        Key::KeyO => Some(32),
        Key::KeyP => Some(33),
        Key::LeftBracket => Some(34),
        Key::RightBracket => Some(35),
        Key::KeyA => Some(38),
        Key::KeyS => Some(39),
        Key::KeyD => Some(40),
        Key::KeyF => Some(41),
        Key::KeyG => Some(42),
        Key::KeyH => Some(43),
        Key::KeyJ => Some(44),
        Key::KeyK => Some(45),
        Key::KeyL => Some(46),
        Key::SemiColon => Some(47),
        Key::Quote => Some(48),
        Key::BackSlash => Some(51),
        Key::IntlBackslash => Some(94),
        Key::KeyZ => Some(52),
        Key::KeyX => Some(53),
        Key::KeyC => Some(54),
        Key::KeyV => Some(55),
        Key::KeyB => Some(56),
        Key::KeyN => Some(57),
        Key::KeyM => Some(58),
        Key::Comma => Some(59),
        Key::Dot => Some(60),
        Key::Slash => Some(61),
        Key::Insert => Some(118),
        Key::KpReturn => Some(104),
        Key::KpMinus => Some(82),
        Key::KpPlus => Some(86),
        Key::KpMultiply => Some(63),
        Key::KpDivide => Some(106),
        Key::Kp0 => Some(90),
        Key::Kp1 => Some(87),
        Key::Kp2 => Some(88),
        Key::Kp3 => Some(89),
        Key::Kp4 => Some(83),
        Key::Kp5 => Some(84),
        Key::Kp6 => Some(85),
        Key::Kp7 => Some(79),
        Key::Kp8 => Some(80),
        Key::Kp9 => Some(81),
        Key::KpDelete => Some(91),
        Key::Unknown(code) => Some(code),
        Key::Function => None,
    }
}

/// The Quartz virtual key code of each key, where it has one. A raw code is
/// accepted as long as it fits the backend's 16-bit code space.
pub open spec fn quartz_key_code(key: Key) -> Option<u32> {
    match key {
        Key::Alt => Some(58),
        Key::AltGr => Some(61),
        Key::Backspace => Some(51),
        Key::CapsLock => Some(57),
        Key::ControlLeft => Some(59),
        Key::ControlRight => Some(62),
        Key::DownArrow => Some(125),
        Key::Escape => Some(53),
        Key::F1 => Some(122),
        Key::F10 => Some(109),
        Key::F11 => Some(103),
        Key::F12 => Some(111),
        Key::F2 => Some(120),
        Key::F3 => Some(99),
        Key::F4 => Some(118),
        Key::F5 => Some(96),
        Key::F6 => Some(97),
        Key::F7 => Some(98),
        Key::F8 => Some(100),
        Key::F9 => Some(101),
        Key::LeftArrow => Some(123),
        Key::MetaLeft => Some(55),
        Key::MetaRight => Some(54),
        Key::Return => Some(36),
        Key::RightArrow => Some(124),
        Key::ShiftLeft => Some(56),
        Key::ShiftRight => Some(60),
        Key::Space => Some(49),
        Key::Tab => Some(48),
        Key::UpArrow => Some(126),
        Key::BackQuote => Some(50),
        Key::Num1 => Some(18),
        Key::Num2 => Some(19),
        Key::Num3 => Some(20),
        Key::Num4 => Some(21),
        Key::Num5 => Some(23),
        Key::Num6 => Some(22),
        Key::Num7 => Some(26),
        Key::Num8 => Some(28),
        Key::Num9 => Some(25),
        Key::Num0 => Some(29),
        Key::Minus => Some(27),
        Key::Equal => Some(24),
        Key::KeyQ => Some(12),
        Key::KeyW => Some(13),
        Key::KeyE => Some(14),
        Key::KeyR => Some(15),
        Key::KeyT => Some(17),
        Key::KeyY => Some(16),
        Key::KeyU => Some(32),
        Key::KeyI => Some(34),
        Key::KeyO => Some(31),
        Key::KeyP => Some(35),
        Key::LeftBracket => Some(33),
        Key::RightBracket => Some(30),
        Key::KeyA => Some(0),
        Key::KeyS => Some(1),
        Key::KeyD => Some(2),
        Key::KeyF => Some(3),
        Key::KeyG => Some(5),
        Key::KeyH => Some(4),
        Key::KeyJ => Some(38),
        Key::KeyK => Some(40),
        Key::KeyL => Some(37),
        Key::SemiColon => Some(41),
        Key::Quote => Some(39),
        Key::BackSlash => Some(42),
        Key::KeyZ => Some(6),
        Key::KeyX => Some(7),
        Key::KeyC => Some(8),
        Key::KeyV => Some(9),
        Key::KeyB => Some(11),
        Key::KeyN => Some(45),
        Key::KeyM => Some(46),
        Key::Comma => Some(43),
        Key::Dot => Some(47),
        Key::Slash => Some(44),
        Key::Function => Some(63),
        Key::Unknown(code) => if code <= QUARTZ_KEY_CODE_MAX {
            Some(code)
        } else {
            None
        },
        Key::Delete | Key::End | Key::Home | Key::PageDown | Key::PageUp
        | Key::PrintScreen | Key::ScrollLock | Key::Pause | Key::NumLock
        | Key::IntlBackslash | Key::Insert | Key::KpReturn | Key::KpMinus | Key::KpPlus
        | Key::KpMultiply | Key::KpDivide | Key::Kp0 | Key::Kp1 | Key::Kp2 | Key::Kp3
        | Key::Kp4 | Key::Kp5 | Key::Kp6 | Key::Kp7 | Key::Kp8 | Key::Kp9 | Key::KpDelete => None,
    }
}

/// The native code of `key` on `backend`, or `None` where the backend has no
/// equivalent key.
pub open spec fn key_code(backend: Backend, key: Key) -> Option<u32> {
    match backend {
        Backend::X11 => x11_key_code(key),
        Backend::Quartz => quartz_key_code(key),
    }
}

/// The X11 pointer button index of each button. Every raw code that fits an
/// unsigned 32-bit index is passed through.
pub open spec fn x11_button_code(button: Button) -> Option<u32> {
    match button {
        Button::Left => Some(1),
        Button::Middle => Some(2),
        Button::Right => Some(3),
        Button::Unknown(raw) => if raw <= u32::MAX {
            Some(raw as u32)
        } else {
            None
        },
    }
}

/// The Quartz button number of each button. Every raw code that fits an
/// unsigned 32-bit number is passed through.
pub open spec fn quartz_button_code(button: Button) -> Option<u32> {
    match button {
        Button::Left => Some(0),
        Button::Right => Some(1),
        Button::Middle => Some(2),
        Button::Unknown(raw) => if raw <= u32::MAX {
            Some(raw as u32)
        } else {
            None
        },
    }
}

/// The native code of `button` on `backend`, or `None` where a raw code does
/// not fit the backend's width.
pub open spec fn button_code(backend: Backend, button: Button) -> Option<u32> {
    match backend {
        Backend::X11 => x11_button_code(button),
        Backend::Quartz => quartz_button_code(button),
    }
}

fn x11_code_from_key(key: Key) -> (r: Option<u32>)
    ensures
        r == x11_key_code(key),
{
    match key {
        Key::Alt => Some(64),
        Key::AltGr => Some(108),
        Key::Backspace => Some(22),
        Key::CapsLock => Some(66),
        Key::ControlLeft => Some(37),
        Key::ControlRight => Some(105),
        Key::Delete => Some(119),
        Key::DownArrow => Some(116),
        Key::End => Some(115),
        Key::Escape => Some(9),
        Key::F1 => Some(67),
        Key::F10 => Some(76),
        Key::F11 => Some(95),
        Key::F12 => Some(96),
        Key::F2 => Some(68),
        Key::F3 => Some(69),
        Key::F4 => Some(70),
        Key::F5 => Some(71),
        Key::F6 => Some(72),
        Key::F7 => Some(73),
        Key::F8 => Some(74),
        Key::F9 => Some(75),
        Key::Home => Some(110),
        Key::LeftArrow => Some(113),
        Key::MetaLeft => Some(133),
        Key::MetaRight => Some(134),
        Key::PageDown => Some(117),
        Key::PageUp => Some(112),
        Key::Return => Some(36),
        Key::RightArrow => Some(114),
        Key::ShiftLeft => Some(50),
        Key::ShiftRight => Some(62),
        Key::Space => Some(65),
        Key::Tab => Some(23),
        Key::UpArrow => Some(111),
        Key::PrintScreen => Some(107),
        Key::ScrollLock => Some(78),
        Key::Pause => Some(127),
        Key::NumLock => Some(77),
        Key::BackQuote => Some(49),
        Key::Num1 => Some(10),
        Key::Num2 => Some(11),
        Key::Num3 => Some(12),
        Key::Num4 => Some(13),
        Key::Num5 => Some(14),
        Key::Num6 => Some(15),
        Key::Num7 => Some(16),
        Key::Num8 => Some(17),
        Key::Num9 => Some(18),
        Key::Num0 => Some(19),
        Key::Minus => Some(20),
        Key::Equal => Some(21),
        Key::KeyQ => Some(24),
        Key::KeyW => Some(25),
        Key::KeyE => Some(26),
        Key::KeyR => Some(27),
        Key::KeyT => Some(28),
        Key::KeyY => Some(29),
        Key::KeyU => Some(30),
        Key::KeyI => Some(31),
        Key::KeyO => Some(32),
        Key::KeyP => Some(33),
        Key::LeftBracket => Some(34),
        Key::RightBracket => Some(35),
        Key::KeyA => Some(38),
        Key::KeyS => Some(39),
        Key::KeyD => Some(40),
        Key::KeyF => Some(41),
        Key::KeyG => Some(42),
        Key::KeyH => Some(43),
        Key::KeyJ => Some(44),
        Key::KeyK => Some(45),
        Key::KeyL => Some(46),
        Key::SemiColon => Some(47),
        Key::Quote => Some(48),
        Key::BackSlash => Some(51),
        Key::IntlBackslash => Some(94),
        Key::KeyZ => Some(52),
        Key::KeyX => Some(53),
        Key::KeyC => Some(54),
        Key::KeyV => Some(55),
        Key::KeyB => Some(56),
        Key::KeyN => Some(57),
        Key::KeyM => Some(58),
        Key::Comma => Some(59),
        Key::Dot => Some(60),
        Key::Slash => Some(61),
        Key::Insert => Some(118),
        Key::KpReturn => Some(104),
        Key::KpMinus => Some(82),
        Key::KpPlus => Some(86),
        Key::KpMultiply => Some(63),
        Key::KpDivide => Some(106),
        Key::Kp0 => Some(90),
        Key::Kp1 => Some(87),
        Key::Kp2 => Some(88),
        Key::Kp3 => Some(89),
        Key::Kp4 => Some(83),
        Key::Kp5 => Some(84),
        Key::Kp6 => Some(85),
        Key::Kp7 => Some(79),
        Key::Kp8 => Some(80),
        Key::Kp9 => Some(81),
        Key::KpDelete => Some(91),
        Key::Unknown(code) => Some(code),
        Key::Function => None,
    }
}

fn quartz_code_from_key(key: Key) -> (r: Option<u32>)
    ensures
        r == quartz_key_code(key),
{
    match key {
        Key::Alt => Some(58),
        Key::AltGr => Some(61),
        Key::Backspace => Some(51),
        Key::CapsLock => Some(57),
        Key::ControlLeft => Some(59),
        Key::ControlRight => Some(62),
        Key::DownArrow => Some(125),
        Key::Escape => Some(53),
        Key::F1 => Some(122),
        Key::F10 => Some(109),
        Key::F11 => Some(103),
        Key::F12 => Some(111),
        Key::F2 => Some(120),
        Key::F3 => Some(99),
        Key::F4 => Some(118),
        Key::F5 => Some(96),
        Key::F6 => Some(97),
        Key::F7 => Some(98),
        Key::F8 => Some(100),
        Key::F9 => Some(101),
        Key::LeftArrow => Some(123),
        Key::MetaLeft => Some(55),
        Key::MetaRight => Some(54),
        Key::Return => Some(36),
        Key::RightArrow => Some(124),
        Key::ShiftLeft => Some(56),
        Key::ShiftRight => Some(60),
        Key::Space => Some(49),
        Key::Tab => Some(48),
        Key::UpArrow => Some(126),
        Key::BackQuote => Some(50),
        Key::Num1 => Some(18),
        Key::Num2 => Some(19),
        Key::Num3 => Some(20),
        Key::Num4 => Some(21),
        Key::Num5 => Some(23),
        Key::Num6 => Some(22),
        Key::Num7 => Some(26),
        Key::Num8 => Some(28),
        Key::Num9 => Some(25),
        Key::Num0 => Some(29),
        Key::Minus => Some(27),
        Key::Equal => Some(24),
        Key::KeyQ => Some(12),
        Key::KeyW => Some(13),
        Key::KeyE => Some(14),
        Key::KeyR => Some(15),
        Key::KeyT => Some(17),
        Key::KeyY => Some(16),
        Key::KeyU => Some(32),
        Key::KeyI => Some(34),
        Key::KeyO => Some(31),
        Key::KeyP => Some(35),
        Key::LeftBracket => Some(33),
        Key::RightBracket => Some(30),
        Key::KeyA => Some(0),
        Key::KeyS => Some(1),
        Key::KeyD => Some(2),
        Key::KeyF => Some(3),
        Key::KeyG => Some(5),
        Key::KeyH => Some(4),
        Key::KeyJ => Some(38),
        Key::KeyK => Some(40),
        Key::KeyL => Some(37),
        Key::SemiColon => Some(41),
        Key::Quote => Some(39),
        Key::BackSlash => Some(42),
        Key::KeyZ => Some(6),
        Key::KeyX => Some(7),
        Key::KeyC => Some(8),
        Key::KeyV => Some(9),
        Key::KeyB => Some(11),
        Key::KeyN => Some(45),
        Key::KeyM => Some(46),
        Key::Comma => Some(43),
        Key::Dot => Some(47),
        Key::Slash => Some(44),
        Key::Function => Some(63),
        Key::Unknown(code) => {
            if code <= QUARTZ_KEY_CODE_MAX {
                Some(code)
            } else {
                None
            }
        },
        Key::Delete | Key::End | Key::Home | Key::PageDown | Key::PageUp
        | Key::PrintScreen | Key::ScrollLock | Key::Pause | Key::NumLock
        | Key::IntlBackslash | Key::Insert | Key::KpReturn | Key::KpMinus | Key::KpPlus
        | Key::KpMultiply | Key::KpDivide | Key::Kp0 | Key::Kp1 | Key::Kp2 | Key::Kp3
        | Key::Kp4 | Key::Kp5 | Key::Kp6 | Key::Kp7 | Key::Kp8 | Key::Kp9 | Key::KpDelete => None,
    }
}

/// Looks up the native code of `key` on `backend`.
pub fn code_from_key(backend: Backend, key: Key) -> (r: Option<u32>)
    ensures
        r == key_code(backend, key),
        backend is Quartz ==> (r matches Some(code) ==> code <= QUARTZ_KEY_CODE_MAX),
{
    match backend {
        Backend::X11 => x11_code_from_key(key),
        Backend::Quartz => quartz_code_from_key(key),
    }
}

/// Looks up the native code of `button` on `backend`.
pub fn code_from_button(backend: Backend, button: Button) -> (r: Option<u32>)
    ensures
        r == button_code(backend, button),
{
    match backend {
        Backend::X11 => match button {
            Button::Left => Some(1),
            Button::Middle => Some(2),
            Button::Right => Some(3),
            Button::Unknown(raw) => {
                if raw <= 0xffff_ffff {
                    Some(raw as u32)
                } else {
                    None
                }
            },
        },
        Backend::Quartz => match button {
            Button::Left => Some(0),
            Button::Right => Some(1),
            Button::Middle => Some(2),
            Button::Unknown(raw) => {
                if raw <= 0xffff_ffff {
                    Some(raw as u32)
                } else {
                    None
                }
            },
        },
    }
}

/// The key that a native code stands for on `backend`: the named key that the
/// table maps to `code` where there is one, and the raw code otherwise.
pub fn key_from_code(backend: Backend, code: u32) -> (key: Key)
    ensures
        key is Unknown ==> key == Key::Unknown(code),
        !(key is Unknown) ==> key_code(backend, key) == Some(code),
        forall|named: Key|
            !(named is Unknown) && #[trigger] key_code(backend, named) == Some(code) ==> key
                == named,
{
    match backend {
        Backend::X11 => match code {
            9 => Key::Escape,
            10 => Key::Num1,
            11 => Key::Num2,
            12 => Key::Num3,
            13 => Key::Num4,
            14 => Key::Num5,
            15 => Key::Num6,
            16 => Key::Num7,
            17 => Key::Num8,
            18 => Key::Num9,
            19 => Key::Num0,
            20 => Key::Minus,
            21 => Key::Equal,
            22 => Key::Backspace,
            23 => Key::Tab,
            24 => Key::KeyQ,
            25 => Key::KeyW,
            26 => Key::KeyE,
            27 => Key::KeyR,
            28 => Key::KeyT,
            29 => Key::KeyY,
            30 => Key::KeyU,
            31 => Key::KeyI,
            32 => Key::KeyO,
            33 => Key::KeyP,
            34 => Key::LeftBracket,
            35 => Key::RightBracket,
            36 => Key::Return,
            37 => Key::ControlLeft,
            38 => Key::KeyA,
            39 => Key::KeyS,
            40 => Key::KeyD,
            41 => Key::KeyF,
            42 => Key::KeyG,
            43 => Key::KeyH,
            44 => Key::KeyJ,
            45 => Key::KeyK,
            46 => Key::KeyL,
            47 => Key::SemiColon,
            48 => Key::Quote,
            49 => Key::BackQuote,
            50 => Key::ShiftLeft,
            51 => Key::BackSlash,
            52 => Key::KeyZ,
            53 => Key::KeyX,
            54 => Key::KeyC,
            55 => Key::KeyV,
            56 => Key::KeyB,
            57 => Key::KeyN,
            58 => Key::KeyM,
            59 => Key::Comma,
            60 => Key::Dot,
            61 => Key::Slash,
            62 => Key::ShiftRight,
            63 => Key::KpMultiply,
            64 => Key::Alt,
            65 => Key::Space,
            66 => Key::CapsLock,
            67 => Key::F1,
            68 => Key::F2,
            69 => Key::F3,
            70 => Key::F4,
            71 => Key::F5,
            72 => Key::F6,
            73 => Key::F7,
            74 => Key::F8,
            75 => Key::F9,
            76 => Key::F10,
            77 => Key::NumLock,
            78 => Key::ScrollLock,
            79 => Key::Kp7,
            80 => Key::Kp8,
            81 => Key::Kp9,
            82 => Key::KpMinus,
            83 => Key::Kp4,
            84 => Key::Kp5,
            85 => Key::Kp6,
            86 => Key::KpPlus,
            87 => Key::Kp1,
            88 => Key::Kp2,
            89 => Key::Kp3,
            90 => Key::Kp0,
            91 => Key::KpDelete,
            94 => Key::IntlBackslash,
            95 => Key::F11,
            96 => Key::F12,
            104 => Key::KpReturn,
            105 => Key::ControlRight,
            106 => Key::KpDivide,
            107 => Key::PrintScreen,
            108 => Key::AltGr,
            110 => Key::Home,
            111 => Key::UpArrow,
            112 => Key::PageUp,
            113 => Key::LeftArrow,
            114 => Key::RightArrow,
            115 => Key::End,
            116 => Key::DownArrow,
            117 => Key::PageDown,
            118 => Key::Insert,
            119 => Key::Delete,
            127 => Key::Pause,
            133 => Key::MetaLeft,
            134 => Key::MetaRight,
            _ => Key::Unknown(code),
        },
        Backend::Quartz => match code {
            0 => Key::KeyA,
            1 => Key::KeyS,
            2 => Key::KeyD,
            3 => Key::KeyF,
            4 => Key::KeyH,
            5 => Key::KeyG,
            6 => Key::KeyZ,
            7 => Key::KeyX,
            8 => Key::KeyC,
            9 => Key::KeyV,
            11 => Key::KeyB,
            12 => Key::KeyQ,
            13 => Key::KeyW,
            14 => Key::KeyE,
            15 => Key::KeyR,
            16 => Key::KeyY,
            17 => Key::KeyT,
            18 => Key::Num1,
            19 => Key::Num2,
            20 => Key::Num3,
            21 => Key::Num4,
            22 => Key::Num6,
            23 => Key::Num5,
            24 => Key::Equal,
            25 => Key::Num9,
            26 => Key::Num7,
            27 => Key::Minus,
            28 => Key::Num8,
            29 => Key::Num0,
            30 => Key::RightBracket,
            31 => Key::KeyO,
            32 => Key::KeyU,
            33 => Key::LeftBracket,
            34 => Key::KeyI,
            35 => Key::KeyP,
            36 => Key::Return,
            37 => Key::KeyL,
            38 => Key::KeyJ,
            39 => Key::Quote,
            40 => Key::KeyK,
            41 => Key::SemiColon,
            42 => Key::BackSlash,
            43 => Key::Comma,
            44 => Key::Slash,
            45 => Key::KeyN,
            46 => Key::KeyM,
            47 => Key::Dot,
            48 => Key::Tab,
            49 => Key::Space,
            50 => Key::BackQuote,
            51 => Key::Backspace,
            53 => Key::Escape,
            54 => Key::MetaRight,
            55 => Key::MetaLeft,
            56 => Key::ShiftLeft,
            57 => Key::CapsLock,
            58 => Key::Alt,
            59 => Key::ControlLeft,
            60 => Key::ShiftRight,
            61 => Key::AltGr,
            62 => Key::ControlRight,
            63 => Key::Function,
            96 => Key::F5,
            97 => Key::F6,
            98 => Key::F7,
            99 => Key::F3,
            100 => Key::F8,
            101 => Key::F9,
            103 => Key::F11,
            109 => Key::F10,
            111 => Key::F12,
            118 => Key::F4,
            120 => Key::F2,
            122 => Key::F1,
            123 => Key::LeftArrow,
            124 => Key::RightArrow,
            125 => Key::DownArrow,
            126 => Key::UpArrow,
            _ => Key::Unknown(code),
        },
    }
}

/// No two named keys share a code on one backend, so a code names at most one
/// key.
pub proof fn lemma_named_keys_have_distinct_codes(backend: Backend, key: Key, other: Key)
    requires
        !(key is Unknown),
        !(other is Unknown),
        key_code(backend, key) is Some,
        key_code(backend, key) == key_code(backend, other),
    ensures
        key == other,
{
}

} // verus!
