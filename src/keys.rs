use vstd::prelude::*;

verus! {

/// A key that can be clicked on the host: one of the named keys, a Unicode
/// character, or a platform key code.
#[derive(Debug, Clone, Copy, PartialEq, Eq, Hash, Structural)]
pub enum Keystroke {
    Add,
    Alt,
    Backspace,
    CapsLock,
    Control,
    Decimal,
    Delete,
    Divide,
    DownArrow,
    End,
    Escape,
    F1,
    F2,
    F3,
    F4,
    F5,
    F6,
    F7,
    F8,
    F9,
    F10,
    F11,
    F12,
    F13,
    F14,
    F15,
    F16,
    F17,
    F18,
    F19,
    F20,
    Help,
    Home,
    LControl,
    LeftArrow,
    LShift,
    MediaNextTrack,
    MediaPlayPause,
    MediaPrevTrack,
    Meta,
    Multiply,
    Numpad0,
    Numpad1,
    Numpad2,
    Numpad3,
    Numpad4,
    Numpad5,
    Numpad6,
    Numpad7,
    Numpad8,
    Numpad9,
    Option,
    PageDown,
    PageUp,
    RControl,
    Return,
    RightArrow,
    RShift,
    Shift,
    Space,
    Subtract,
    Tab,
    UpArrow,
    VolumeDown,
    VolumeMute,
    VolumeUp,
    Unicode(char),
    Other(u32),
}

/// Number of named keys.
pub const NAMED_KEY_COUNT: u8 = 66;

impl Keystroke {
    /// The position of a named key in the list of named keys.
    pub open spec fn named_index(self) -> Option<u8> {
        match self {
            Keystroke::Add => Some(0u8),
            Keystroke::Alt => Some(1u8),
            Keystroke::Backspace => Some(2u8),
            Keystroke::CapsLock => Some(3u8),
            Keystroke::Control => Some(4u8),
            Keystroke::Decimal => Some(5u8),
            Keystroke::Delete => Some(6u8),
            Keystroke::Divide => Some(7u8),
            Keystroke::DownArrow => Some(8u8),
            Keystroke::End => Some(9u8),
            Keystroke::Escape => Some(10u8),
            Keystroke::F1 => Some(11u8),
            Keystroke::F2 => Some(12u8),
            Keystroke::F3 => Some(13u8),
            Keystroke::F4 => Some(14u8),
            Keystroke::F5 => Some(15u8),
            Keystroke::F6 => Some(16u8),
            Keystroke::F7 => Some(17u8),
            Keystroke::F8 => Some(18u8),
            Keystroke::F9 => Some(19u8),
            Keystroke::F10 => Some(20u8),
            Keystroke::F11 => Some(21u8),
            Keystroke::F12 => Some(22u8),
            Keystroke::F13 => Some(23u8),
            Keystroke::F14 => Some(24u8),
            Keystroke::F15 => Some(25u8),
            Keystroke::F16 => Some(26u8),
            Keystroke::F17 => Some(27u8),
            Keystroke::F18 => Some(28u8),
            Keystroke::F19 => Some(29u8),
            Keystroke::F20 => Some(30u8),
            Keystroke::Help => Some(31u8),
            Keystroke::Home => Some(32u8),
            Keystroke::LControl => Some(33u8),
            Keystroke::LeftArrow => Some(34u8),
            Keystroke::LShift => Some(35u8),
            Keystroke::MediaNextTrack => Some(36u8),
            Keystroke::MediaPlayPause => Some(37u8),
            Keystroke::MediaPrevTrack => Some(38u8),
            Keystroke::Meta => Some(39u8),
            Keystroke::Multiply => Some(40u8),
            Keystroke::Numpad0 => Some(41u8),
            Keystroke::Numpad1 => Some(42u8),
            Keystroke::Numpad2 => Some(43u8),
            Keystroke::Numpad3 => Some(44u8),
            Keystroke::Numpad4 => Some(45u8),
            Keystroke::Numpad5 => Some(46u8),
            Keystroke::Numpad6 => Some(47u8),
            Keystroke::Numpad7 => Some(48u8),
            Keystroke::Numpad8 => Some(49u8),
            Keystroke::Numpad9 => Some(50u8),
            Keystroke::Option => Some(51u8),
            Keystroke::PageDown => Some(52u8),
            Keystroke::PageUp => Some(53u8),
            Keystroke::RControl => Some(54u8),
            Keystroke::Return => Some(55u8),
            Keystroke::RightArrow => Some(56u8),
            Keystroke::RShift => Some(57u8),
            Keystroke::Shift => Some(58u8),
            Keystroke::Space => Some(59u8),
            Keystroke::Subtract => Some(60u8),
            Keystroke::Tab => Some(61u8),
            Keystroke::UpArrow => Some(62u8),
            Keystroke::VolumeDown => Some(63u8),
            Keystroke::VolumeMute => Some(64u8),
            Keystroke::VolumeUp => Some(65u8),
            Keystroke::Unicode(_) => None,
            Keystroke::Other(_) => None,
        }
    }

    /// The named key at `index`.
    pub open spec fn spec_from_named_index(index: u8) -> Option<Keystroke> {
        match index {
            0 => Some(Keystroke::Add),
            1 => Some(Keystroke::Alt),
            2 => Some(Keystroke::Backspace),
            3 => Some(Keystroke::CapsLock),
            4 => Some(Keystroke::Control),
            5 => Some(Keystroke::Decimal),
            6 => Some(Keystroke::Delete),
            7 => Some(Keystroke::Divide),
            8 => Some(Keystroke::DownArrow),
            9 => Some(Keystroke::End),
            10 => Some(Keystroke::Escape),
            11 => Some(Keystroke::F1),
            12 => Some(Keystroke::F2),
            13 => Some(Keystroke::F3),
            14 => Some(Keystroke::F4),
            15 => Some(Keystroke::F5),
            16 => Some(Keystroke::F6),
            17 => Some(Keystroke::F7),
            18 => Some(Keystroke::F8),
            19 => Some(Keystroke::F9),
            20 => Some(Keystroke::F10),
            21 => Some(Keystroke::F11),
            22 => Some(Keystroke::F12),
            23 => Some(Keystroke::F13),
            24 => Some(Keystroke::F14),
            25 => Some(Keystroke::F15),
            26 => Some(Keystroke::F16),
            27 => Some(Keystroke::F17),
            28 => Some(Keystroke::F18),
            29 => Some(Keystroke::F19),
            30 => Some(Keystroke::F20),
            31 => Some(Keystroke::Help),
            32 => Some(Keystroke::Home),
            33 => Some(Keystroke::LControl),
            34 => Some(Keystroke::LeftArrow),
            35 => Some(Keystroke::LShift),
            36 => Some(Keystroke::MediaNextTrack),
            37 => Some(Keystroke::MediaPlayPause),
            38 => Some(Keystroke::MediaPrevTrack),
            39 => Some(Keystroke::Meta),
            40 => Some(Keystroke::Multiply),
            41 => Some(Keystroke::Numpad0),
            42 => Some(Keystroke::Numpad1),
            43 => Some(Keystroke::Numpad2),
            44 => Some(Keystroke::Numpad3),
            45 => Some(Keystroke::Numpad4),
            46 => Some(Keystroke::Numpad5),
            47 => Some(Keystroke::Numpad6),
            48 => Some(Keystroke::Numpad7),
            49 => Some(Keystroke::Numpad8),
            50 => Some(Keystroke::Numpad9),
            51 => Some(Keystroke::Option),
            52 => Some(Keystroke::PageDown),
            53 => Some(Keystroke::PageUp),
            54 => Some(Keystroke::RControl),
            55 => Some(Keystroke::Return),
            56 => Some(Keystroke::RightArrow),
            57 => Some(Keystroke::RShift),
            58 => Some(Keystroke::Shift),
            59 => Some(Keystroke::Space),
            60 => Some(Keystroke::Subtract),
            61 => Some(Keystroke::Tab),
            62 => Some(Keystroke::UpArrow),
            63 => Some(Keystroke::VolumeDown),
            64 => Some(Keystroke::VolumeMute),
            65 => Some(Keystroke::VolumeUp),
            _ => None,
        }
    }

    pub fn named_index_of(self) -> (r: Option<u8>)
        ensures
            r == self.named_index(),
    {
        match self {
            Keystroke::Add => Some(0),
            Keystroke::Alt => Some(1),
            Keystroke::Backspace => Some(2),
            Keystroke::CapsLock => Some(3),
            Keystroke::Control => Some(4),
            Keystroke::Decimal => Some(5),
            Keystroke::Delete => Some(6),
            Keystroke::Divide => Some(7),
            Keystroke::DownArrow => Some(8),
            Keystroke::End => Some(9),
            Keystroke::Escape => Some(10),
            Keystroke::F1 => Some(11),
            Keystroke::F2 => Some(12),
            Keystroke::F3 => Some(13),
            Keystroke::F4 => Some(14),
            Keystroke::F5 => Some(15),
            Keystroke::F6 => Some(16),
            Keystroke::F7 => Some(17),
            Keystroke::F8 => Some(18),
            Keystroke::F9 => Some(19),
            Keystroke::F10 => Some(20),
            Keystroke::F11 => Some(21),
            Keystroke::F12 => Some(22),
            Keystroke::F13 => Some(23),
            Keystroke::F14 => Some(24),
            Keystroke::F15 => Some(25),
            Keystroke::F16 => Some(26),
            Keystroke::F17 => Some(27),
            Keystroke::F18 => Some(28),
            Keystroke::F19 => Some(29),
            Keystroke::F20 => Some(30),
            Keystroke::Help => Some(31),
            Keystroke::Home => Some(32),
            Keystroke::LControl => Some(33),
            Keystroke::LeftArrow => Some(34),
            Keystroke::LShift => Some(35),
            Keystroke::MediaNextTrack => Some(36),
            Keystroke::MediaPlayPause => Some(37),
            Keystroke::MediaPrevTrack => Some(38),
            Keystroke::Meta => Some(39),
            Keystroke::Multiply => Some(40),
            Keystroke::Numpad0 => Some(41),
            Keystroke::Numpad1 => Some(42),
            Keystroke::Numpad2 => Some(43),
            Keystroke::Numpad3 => Some(44),
            Keystroke::Numpad4 => Some(45),
            Keystroke::Numpad5 => Some(46),
            Keystroke::Numpad6 => Some(47),
            Keystroke::Numpad7 => Some(48),
            Keystroke::Numpad8 => Some(49),
            Keystroke::Numpad9 => Some(50),
            Keystroke::Option => Some(51),
            Keystroke::PageDown => Some(52),
            Keystroke::PageUp => Some(53),
            Keystroke::RControl => Some(54),
            Keystroke::Return => Some(55),
            Keystroke::RightArrow => Some(56),
            Keystroke::RShift => Some(57),
            Keystroke::Shift => Some(58),
            Keystroke::Space => Some(59),
            Keystroke::Subtract => Some(60),
            Keystroke::Tab => Some(61),
            Keystroke::UpArrow => Some(62),
            Keystroke::VolumeDown => Some(63),
            Keystroke::VolumeMute => Some(64),
            Keystroke::VolumeUp => Some(65),
            Keystroke::Unicode(_) => None,
            Keystroke::Other(_) => None,
        }
    }

    pub fn from_named_index(index: u8) -> (r: Option<Keystroke>)
        ensures
            r == Keystroke::spec_from_named_index(index),
    {
        match index {
            0 => Some(Keystroke::Add),
            1 => Some(Keystroke::Alt),
            2 => Some(Keystroke::Backspace),
            3 => Some(Keystroke::CapsLock),
            4 => Some(Keystroke::Control),
            5 => Some(Keystroke::Decimal),
            6 => Some(Keystroke::Delete),
            7 => Some(Keystroke::Divide),
            8 => Some(Keystroke::DownArrow),
            9 => Some(Keystroke::End),
            10 => Some(Keystroke::Escape),
            11 => Some(Keystroke::F1),
            12 => Some(Keystroke::F2),
            13 => Some(Keystroke::F3),
            14 => Some(Keystroke::F4),
            15 => Some(Keystroke::F5),
            16 => Some(Keystroke::F6),
            17 => Some(Keystroke::F7),
            18 => Some(Keystroke::F8),
            19 => Some(Keystroke::F9),
            20 => Some(Keystroke::F10),
            21 => Some(Keystroke::F11),
            22 => Some(Keystroke::F12),
            23 => Some(Keystroke::F13),
            24 => Some(Keystroke::F14),
            25 => Some(Keystroke::F15),
            26 => Some(Keystroke::F16),
            27 => Some(Keystroke::F17),
            28 => Some(Keystroke::F18),
            29 => Some(Keystroke::F19),
            30 => Some(Keystroke::F20),
            31 => Some(Keystroke::Help),
            32 => Some(Keystroke::Home),
            33 => Some(Keystroke::LControl),
            34 => Some(Keystroke::LeftArrow),
            35 => Some(Keystroke::LShift),
            36 => Some(Keystroke::MediaNextTrack),
            37 => Some(Keystroke::MediaPlayPause),
            38 => Some(Keystroke::MediaPrevTrack),
            39 => Some(Keystroke::Meta),
            40 => Some(Keystroke::Multiply),
            41 => Some(Keystroke::Numpad0),
            42 => Some(Keystroke::Numpad1),
            43 => Some(Keystroke::Numpad2),
            44 => Some(Keystroke::Numpad3),
            45 => Some(Keystroke::Numpad4),
            46 => Some(Keystroke::Numpad5),
            47 => Some(Keystroke::Numpad6),
            48 => Some(Keystroke::Numpad7),
            49 => Some(Keystroke::Numpad8),
            50 => Some(Keystroke::Numpad9),
            51 => Some(Keystroke::Option),
            52 => Some(Keystroke::PageDown),
            53 => Some(Keystroke::PageUp),
            54 => Some(Keystroke::RControl),
            55 => Some(Keystroke::Return),
            56 => Some(Keystroke::RightArrow),
            57 => Some(Keystroke::RShift),
            58 => Some(Keystroke::Shift),
            59 => Some(Keystroke::Space),
            60 => Some(Keystroke::Subtract),
            61 => Some(Keystroke::Tab),
            62 => Some(Keystroke::UpArrow),
            63 => Some(Keystroke::VolumeDown),
            64 => Some(Keystroke::VolumeMute),
            65 => Some(Keystroke::VolumeUp),
            _ => None,
        }
    }
}

/// Reading a named key back from its index gives the key.
pub proof fn lemma_named_index_round_trip(k: Keystroke)
    ensures
        k.named_index() matches Some(i) ==> Keystroke::spec_from_named_index(i) == Some(k),
        k.named_index() matches Some(i) ==> i < NAMED_KEY_COUNT,
        k.named_index() is None ==> (k is Unicode || k is Other),
{
}

/// Every index below the count names a key whose index it is.
pub proof fn lemma_from_named_index(i: u8)
    ensures
        Keystroke::spec_from_named_index(i) matches Some(k) ==> k.named_index() == Some(i),
{
}

} // verus!
