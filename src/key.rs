use crate::sequence::{
    EventType, KeyCode, KeyboardModifiers, Sequence, SequenceIntroducer, SequenceTerminator,
    SequenceView,
};
use vstd::prelude::*;

verus! {

/// What key an event is about.
#[derive(Debug, Clone, Copy, PartialEq, Eq, Structural, Default)]
pub enum KeyType {
    Unicode(char),
    Functional(FunctionalKey),
    #[default]
    Unknown,
}

/// A fresh sequence for a key code and terminator: no modifiers, a press, no text.
pub open spec fn bare_sequence(code: u32, terminator: SequenceTerminator) -> SequenceView {
    SequenceView {
        introducer: SequenceIntroducer::CSI,
        key_code: KeyCode { key_code: code, shifted_key_code: None, base_layout_key_code: None },
        modifier: KeyboardModifiers { bits: 0 },
        event_type: EventType::Press,
        associated_text: None,
        terminator,
    }
}

fn new_sequence(code: u32, terminator: SequenceTerminator) -> (r: Sequence)
    ensures
        r@ == bare_sequence(code, terminator),
{
    Sequence {
        introducer: SequenceIntroducer::CSI,
        key_code: KeyCode { key_code: code, shifted_key_code: None, base_layout_key_code: None },
        modifier: KeyboardModifiers { bits: 0 },
        event_type: EventType::Press,
        associated_text: None,
        terminator,
    }
}

impl KeyType {
    /// The sequence that stands for the key, if it can be represented.
    pub open spec fn spec_sequence(self) -> Option<SequenceView> {
        match self {
            KeyType::Unicode(c) => Some(bare_sequence(c as u32, SequenceTerminator::Kitty)),
            KeyType::Functional(f) => Some(f.spec_sequence()),
            KeyType::Unknown => None,
        }
    }

    /// The code point of a character key.
    pub open spec fn spec_key_code(self) -> Option<u32> {
        match self {
            KeyType::Unicode(c) => Some(c as u32),
            _ => None,
        }
    }

    pub fn to_sequence(&self) -> (r: Option<Sequence>)
        ensures
            r is Some <==> self.spec_sequence() is Some,
            r is Some ==> r->0@ == self.spec_sequence()->0,
    {
        match self {
            KeyType::Unicode(ch) => Some(new_sequence(*ch as u32, SequenceTerminator::Kitty)),
            KeyType::Functional(func) => Some(func.to_sequence()),
            KeyType::Unknown => None,
        }
    }

    pub fn to_key_code(&self) -> (r: Option<u32>)
        ensures
            r == self.spec_key_code(),
    {
        match self {
            KeyType::Unicode(ch) => Some(*ch as u32),
            _ => None,
        }
    }
}

/// The named keys: arrows, editing keys, function keys, the keypad, media
/// keys, modifiers pressed as keys and the ISO shift levels.
#[derive(Debug, Clone, Copy, PartialEq, Eq, Structural)]
pub enum FunctionalKey {
    Escape,
    Enter,
    Tab,
    Backspace,
    Insert,
    Delete,
    Left,
    Right,
    Up,
    Down,
    PageUp,
    PageDown,
    Home,
    End,
    CapsLock,
    ScrollLock,
    NumLock,
    PrintScreen,
    Pause,
    Menu,

    F1,
    F2,
    F3,
    F4,
    F5,
    F6,
    F7,
    F8,
    F9,
    F10,
    F11,
    F12,
    F13,
    F14,
    F15,
    F16,
    F17,
    F18,
    F19,
    F20,
    F21,
    F22,
    F23,
    F24,
    F25,
    F26,
    F27,
    F28,
    F29,
    F30,
    F31,
    F32,
    F33,
    F34,
    F35,

    NumPad0,
    NumPad1,
    NumPad2,
    NumPad3,
    NumPad4,
    NumPad5,
    NumPad6,
    NumPad7,
    NumPad8,
    NumPad9,

    NumPadDecimal,
    NumPadDivide,
    NumPadMultply,
    NumPadSubtract,
    NumPadAdd,
    NumPadEnter,
    NumPadEqual,
    NumPadSeparator,
    NumPadLeft,
    NumPadRight,
    NumPadUp,
    NumPadDown,
    NumPadPageUp,
    NumPadPageDown,
    NumPadHome,
    NumPadEnd,
    NumPadInsert,
    NumPadDelete,
    NumPadBegin,

    MediaPlay,
    MediaPause,
    MediaPlayPause,
    MediaReverse,
    MediaStop,
    MediaFastForward,
    MediaRewind,
    MediaTrackNext,
    MediaTrackPrevious,
    MediaRecord,

    LowerVolume,
    RaiseVolume,
    MuteVolume,

    LeftShift,
    LeftControl,
    LeftAlt,
    LeftSuper,
    LeftHyper,
    LeftMeta,

    RightShift,
    RightControl,
    RightAlt,
    RightSuper,
    RightHyper,
    RightMeta,

    IsoLevel3Shift,
    IsoLevel5Shift,
}

impl FunctionalKey {
    /// The key's code and terminator.
    pub open spec fn spec_entry(self) -> (u32, SequenceTerminator) {
        match self {
            FunctionalKey::Escape => (27, SequenceTerminator::Kitty),
            FunctionalKey::Enter => (13, SequenceTerminator::Kitty),
            FunctionalKey::Tab => (9, SequenceTerminator::Kitty),
            FunctionalKey::Backspace => (127, SequenceTerminator::Kitty),
            FunctionalKey::Insert => (2, SequenceTerminator::Other('~')),
            FunctionalKey::Delete => (3, SequenceTerminator::Other('~')),
            FunctionalKey::Left => (1, SequenceTerminator::Other('D')),
            FunctionalKey::Right => (1, SequenceTerminator::Other('C')),
            FunctionalKey::Up => (1, SequenceTerminator::Other('A')),
            FunctionalKey::Down => (1, SequenceTerminator::Other('B')),
            FunctionalKey::PageUp => (5, SequenceTerminator::Other('~')),
            FunctionalKey::PageDown => (6, SequenceTerminator::Other('~')),
            FunctionalKey::Home => (1, SequenceTerminator::Other('H')),
            FunctionalKey::End => (1, SequenceTerminator::Other('F')),
            FunctionalKey::CapsLock => (57358, SequenceTerminator::Kitty),
            FunctionalKey::ScrollLock => (57359, SequenceTerminator::Kitty),
            FunctionalKey::NumLock => (57360, SequenceTerminator::Kitty),
            FunctionalKey::PrintScreen => (57361, SequenceTerminator::Kitty),
            FunctionalKey::Pause => (57362, SequenceTerminator::Kitty),
            FunctionalKey::Menu => (57363, SequenceTerminator::Kitty),
            FunctionalKey::F1 => (1, SequenceTerminator::Other('P')),
            FunctionalKey::F2 => (1, SequenceTerminator::Other('Q')),
            FunctionalKey::F3 => (13, SequenceTerminator::Other('~')),
            FunctionalKey::F4 => (1, SequenceTerminator::Other('S')),
            FunctionalKey::F5 => (15, SequenceTerminator::Other('~')),
            FunctionalKey::F6 => (17, SequenceTerminator::Other('~')),
            FunctionalKey::F7 => (18, SequenceTerminator::Other('~')),
            FunctionalKey::F8 => (19, SequenceTerminator::Other('~')),
            FunctionalKey::F9 => (20, SequenceTerminator::Other('~')),
            FunctionalKey::F10 => (21, SequenceTerminator::Other('~')),
            FunctionalKey::F11 => (23, SequenceTerminator::Other('~')),
            FunctionalKey::F12 => (24, SequenceTerminator::Other('~')),
            FunctionalKey::F13 => (57376, SequenceTerminator::Kitty),
            FunctionalKey::F14 => (57377, SequenceTerminator::Kitty),
            FunctionalKey::F15 => (57378, SequenceTerminator::Kitty),
            FunctionalKey::F16 => (57379, SequenceTerminator::Kitty),
            FunctionalKey::F17 => (57380, SequenceTerminator::Kitty),
            FunctionalKey::F18 => (57381, SequenceTerminator::Kitty),
            FunctionalKey::F19 => (57382, SequenceTerminator::Kitty),
            FunctionalKey::F20 => (57383, SequenceTerminator::Kitty),
            FunctionalKey::F21 => (57384, SequenceTerminator::Kitty),
            FunctionalKey::F22 => (57385, SequenceTerminator::Kitty),
            FunctionalKey::F23 => (57386, SequenceTerminator::Kitty),
            FunctionalKey::F24 => (57387, SequenceTerminator::Kitty),
            FunctionalKey::F25 => (57388, SequenceTerminator::Kitty),
            FunctionalKey::F26 => (57389, SequenceTerminator::Kitty),
            FunctionalKey::F27 => (57390, SequenceTerminator::Kitty),
            FunctionalKey::F28 => (57391, SequenceTerminator::Kitty),
            FunctionalKey::F29 => (57392, SequenceTerminator::Kitty),
            FunctionalKey::F30 => (57393, SequenceTerminator::Kitty),
            FunctionalKey::F31 => (57394, SequenceTerminator::Kitty),
            FunctionalKey::F32 => (57395, SequenceTerminator::Kitty),
            FunctionalKey::F33 => (57396, SequenceTerminator::Kitty),
            FunctionalKey::F34 => (57397, SequenceTerminator::Kitty),
            FunctionalKey::F35 => (57398, SequenceTerminator::Kitty),
            FunctionalKey::NumPad0 => (57399, SequenceTerminator::Kitty),
            FunctionalKey::NumPad1 => (57400, SequenceTerminator::Kitty),
            FunctionalKey::NumPad2 => (57401, SequenceTerminator::Kitty),
            FunctionalKey::NumPad3 => (57402, SequenceTerminator::Kitty),
            FunctionalKey::NumPad4 => (57403, SequenceTerminator::Kitty),
            FunctionalKey::NumPad5 => (57404, SequenceTerminator::Kitty),
            FunctionalKey::NumPad6 => (57405, SequenceTerminator::Kitty),
            FunctionalKey::NumPad7 => (57406, SequenceTerminator::Kitty),
            FunctionalKey::NumPad8 => (57407, SequenceTerminator::Kitty),
            FunctionalKey::NumPad9 => (57408, SequenceTerminator::Kitty),
            FunctionalKey::NumPadDecimal => (57409, SequenceTerminator::Kitty),
            FunctionalKey::NumPadDivide => (57410, SequenceTerminator::Kitty),
            FunctionalKey::NumPadMultply => (57411, SequenceTerminator::Kitty),
            FunctionalKey::NumPadSubtract => (57412, SequenceTerminator::Kitty),
            FunctionalKey::NumPadAdd => (57413, SequenceTerminator::Kitty),
            FunctionalKey::NumPadEnter => (57414, SequenceTerminator::Kitty),
            FunctionalKey::NumPadEqual => (57415, SequenceTerminator::Kitty),
            FunctionalKey::NumPadSeparator => (57416, SequenceTerminator::Kitty),
            FunctionalKey::NumPadLeft => (57417, SequenceTerminator::Kitty),
            FunctionalKey::NumPadRight => (57418, SequenceTerminator::Kitty),
            FunctionalKey::NumPadUp => (57419, SequenceTerminator::Kitty),
            FunctionalKey::NumPadDown => (57420, SequenceTerminator::Kitty),
            FunctionalKey::NumPadPageUp => (57421, SequenceTerminator::Kitty),
            FunctionalKey::NumPadPageDown => (57422, SequenceTerminator::Kitty),
            FunctionalKey::NumPadHome => (57423, SequenceTerminator::Kitty),
            FunctionalKey::NumPadEnd => (57424, SequenceTerminator::Kitty),
            FunctionalKey::NumPadInsert => (57425, SequenceTerminator::Kitty),
            FunctionalKey::NumPadDelete => (57426, SequenceTerminator::Kitty),
            FunctionalKey::NumPadBegin => (1, SequenceTerminator::Other('E')),
            FunctionalKey::MediaPlay => (57428, SequenceTerminator::Kitty),
            FunctionalKey::MediaPause => (57429, SequenceTerminator::Kitty),
            FunctionalKey::MediaPlayPause => (57430, SequenceTerminator::Kitty),
            FunctionalKey::MediaReverse => (57431, SequenceTerminator::Kitty),
            FunctionalKey::MediaStop => (57432, SequenceTerminator::Kitty),
            FunctionalKey::MediaFastForward => (57433, SequenceTerminator::Kitty),
            FunctionalKey::MediaRewind => (57434, SequenceTerminator::Kitty),
            FunctionalKey::MediaTrackNext => (57435, SequenceTerminator::Kitty),
            FunctionalKey::MediaTrackPrevious => (57436, SequenceTerminator::Kitty),
            FunctionalKey::MediaRecord => (57437, SequenceTerminator::Kitty),
            FunctionalKey::LowerVolume => (57438, SequenceTerminator::Kitty),
            FunctionalKey::RaiseVolume => (57439, SequenceTerminator::Kitty),
            FunctionalKey::MuteVolume => (57440, SequenceTerminator::Kitty),
            FunctionalKey::LeftShift => (57441, SequenceTerminator::Kitty),
            FunctionalKey::LeftControl => (57442, SequenceTerminator::Kitty),
            FunctionalKey::LeftAlt => (57443, SequenceTerminator::Kitty),
            FunctionalKey::LeftSuper => (57444, SequenceTerminator::Kitty),
            FunctionalKey::LeftHyper => (57445, SequenceTerminator::Kitty),
            FunctionalKey::LeftMeta => (57446, SequenceTerminator::Kitty),
            FunctionalKey::RightShift => (57447, SequenceTerminator::Kitty),
            FunctionalKey::RightControl => (57448, SequenceTerminator::Kitty),
            FunctionalKey::RightAlt => (57449, SequenceTerminator::Kitty),
            FunctionalKey::RightSuper => (57450, SequenceTerminator::Kitty),
            FunctionalKey::RightHyper => (57451, SequenceTerminator::Kitty),
            FunctionalKey::RightMeta => (57452, SequenceTerminator::Kitty),
            FunctionalKey::IsoLevel3Shift => (57453, SequenceTerminator::Kitty),
            FunctionalKey::IsoLevel5Shift => (57454, SequenceTerminator::Kitty),
        }
    }

    pub open spec fn spec_sequence(self) -> SequenceView {
        bare_sequence(self.spec_entry().0, self.spec_entry().1)
    }

    pub open spec fn spec_is_numpad(self) -> bool {
        matches!(
            self,
            FunctionalKey::NumPad0
                | FunctionalKey::NumPad1
                | FunctionalKey::NumPad2
                | FunctionalKey::NumPad3
                | FunctionalKey::NumPad4
                | FunctionalKey::NumPad5
                | FunctionalKey::NumPad6
                | FunctionalKey::NumPad7
                | FunctionalKey::NumPad8
                | FunctionalKey::NumPad9
                | FunctionalKey::NumPadDecimal
                | FunctionalKey::NumPadDivide
                | FunctionalKey::NumPadMultply
                | FunctionalKey::NumPadSubtract
                | FunctionalKey::NumPadAdd
                | FunctionalKey::NumPadEnter
                | FunctionalKey::NumPadEqual
                | FunctionalKey::NumPadSeparator
                | FunctionalKey::NumPadLeft
                | FunctionalKey::NumPadRight
                | FunctionalKey::NumPadUp
                | FunctionalKey::NumPadDown
                | FunctionalKey::NumPadPageUp
                | FunctionalKey::NumPadPageDown
                | FunctionalKey::NumPadHome
                | FunctionalKey::NumPadEnd
                | FunctionalKey::NumPadInsert
                | FunctionalKey::NumPadDelete
                | FunctionalKey::NumPadBegin
        )
    }

    /// The text sent for the key where no sequence is asked for.
    pub open spec fn spec_legacy(self) -> Option<Seq<char>> {
        match self {
            FunctionalKey::Escape => Some(seq!['\x1b']),
            FunctionalKey::Enter => Some(seq!['\r']),
            FunctionalKey::Tab => Some(seq!['\t']),
            FunctionalKey::Backspace => Some(seq!['\x08']),
            _ => None,
        }
    }

    pub fn to_sequence(self) -> (r: Sequence)
        ensures
            r@ == self.spec_sequence(),
    {
        let (code, terminator) = match self {
            FunctionalKey::Escape => (27, SequenceTerminator::Kitty),
            FunctionalKey::Enter => (13, SequenceTerminator::Kitty),
            FunctionalKey::Tab => (9, SequenceTerminator::Kitty),
            FunctionalKey::Backspace => (127, SequenceTerminator::Kitty),
            FunctionalKey::Insert => (2, SequenceTerminator::Other('~')),
            FunctionalKey::Delete => (3, SequenceTerminator::Other('~')),
            FunctionalKey::Left => (1, SequenceTerminator::Other('D')),
            FunctionalKey::Right => (1, SequenceTerminator::Other('C')),
            FunctionalKey::Up => (1, SequenceTerminator::Other('A')),
            FunctionalKey::Down => (1, SequenceTerminator::Other('B')),
            FunctionalKey::PageUp => (5, SequenceTerminator::Other('~')),
            FunctionalKey::PageDown => (6, SequenceTerminator::Other('~')),
            FunctionalKey::Home => (1, SequenceTerminator::Other('H')),
            FunctionalKey::End => (1, SequenceTerminator::Other('F')),
            FunctionalKey::CapsLock => (57358, SequenceTerminator::Kitty),
            FunctionalKey::ScrollLock => (57359, SequenceTerminator::Kitty),
            FunctionalKey::NumLock => (57360, SequenceTerminator::Kitty),
            FunctionalKey::PrintScreen => (57361, SequenceTerminator::Kitty),
            FunctionalKey::Pause => (57362, SequenceTerminator::Kitty),
            FunctionalKey::Menu => (57363, SequenceTerminator::Kitty),
            FunctionalKey::F1 => (1, SequenceTerminator::Other('P')),
            FunctionalKey::F2 => (1, SequenceTerminator::Other('Q')),
            FunctionalKey::F3 => (13, SequenceTerminator::Other('~')),
            FunctionalKey::F4 => (1, SequenceTerminator::Other('S')),
            FunctionalKey::F5 => (15, SequenceTerminator::Other('~')),
            FunctionalKey::F6 => (17, SequenceTerminator::Other('~')),
            FunctionalKey::F7 => (18, SequenceTerminator::Other('~')),
            FunctionalKey::F8 => (19, SequenceTerminator::Other('~')),
            FunctionalKey::F9 => (20, SequenceTerminator::Other('~')),
            FunctionalKey::F10 => (21, SequenceTerminator::Other('~')),
            FunctionalKey::F11 => (23, SequenceTerminator::Other('~')),
            FunctionalKey::F12 => (24, SequenceTerminator::Other('~')),
            FunctionalKey::F13 => (57376, SequenceTerminator::Kitty),
            FunctionalKey::F14 => (57377, SequenceTerminator::Kitty),
            FunctionalKey::F15 => (57378, SequenceTerminator::Kitty),
            FunctionalKey::F16 => (57379, SequenceTerminator::Kitty),
            FunctionalKey::F17 => (57380, SequenceTerminator::Kitty),
            FunctionalKey::F18 => (57381, SequenceTerminator::Kitty),
            FunctionalKey::F19 => (57382, SequenceTerminator::Kitty),
            FunctionalKey::F20 => (57383, SequenceTerminator::Kitty),
            FunctionalKey::F21 => (57384, SequenceTerminator::Kitty),
            FunctionalKey::F22 => (57385, SequenceTerminator::Kitty),
            FunctionalKey::F23 => (57386, SequenceTerminator::Kitty),
            FunctionalKey::F24 => (57387, SequenceTerminator::Kitty),
            FunctionalKey::F25 => (57388, SequenceTerminator::Kitty),
            FunctionalKey::F26 => (57389, SequenceTerminator::Kitty),
            FunctionalKey::F27 => (57390, SequenceTerminator::Kitty),
            FunctionalKey::F28 => (57391, SequenceTerminator::Kitty),
            FunctionalKey::F29 => (57392, SequenceTerminator::Kitty),
            FunctionalKey::F30 => (57393, SequenceTerminator::Kitty),
            FunctionalKey::F31 => (57394, SequenceTerminator::Kitty),
            FunctionalKey::F32 => (57395, SequenceTerminator::Kitty),
            FunctionalKey::F33 => (57396, SequenceTerminator::Kitty),
            FunctionalKey::F34 => (57397, SequenceTerminator::Kitty),
            FunctionalKey::F35 => (57398, SequenceTerminator::Kitty),
            FunctionalKey::NumPad0 => (57399, SequenceTerminator::Kitty),
            FunctionalKey::NumPad1 => (57400, SequenceTerminator::Kitty),
            FunctionalKey::NumPad2 => (57401, SequenceTerminator::Kitty),
            FunctionalKey::NumPad3 => (57402, SequenceTerminator::Kitty),
            FunctionalKey::NumPad4 => (57403, SequenceTerminator::Kitty),
            FunctionalKey::NumPad5 => (57404, SequenceTerminator::Kitty),
            FunctionalKey::NumPad6 => (57405, SequenceTerminator::Kitty),
            FunctionalKey::NumPad7 => (57406, SequenceTerminator::Kitty),
            FunctionalKey::NumPad8 => (57407, SequenceTerminator::Kitty),
            FunctionalKey::NumPad9 => (57408, SequenceTerminator::Kitty),
            FunctionalKey::NumPadDecimal => (57409, SequenceTerminator::Kitty),
            FunctionalKey::NumPadDivide => (57410, SequenceTerminator::Kitty),
            FunctionalKey::NumPadMultply => (57411, SequenceTerminator::Kitty),
            FunctionalKey::NumPadSubtract => (57412, SequenceTerminator::Kitty),
            FunctionalKey::NumPadAdd => (57413, SequenceTerminator::Kitty),
            FunctionalKey::NumPadEnter => (57414, SequenceTerminator::Kitty),
            FunctionalKey::NumPadEqual => (57415, SequenceTerminator::Kitty),
            FunctionalKey::NumPadSeparator => (57416, SequenceTerminator::Kitty),
            FunctionalKey::NumPadLeft => (57417, SequenceTerminator::Kitty),
            FunctionalKey::NumPadRight => (57418, SequenceTerminator::Kitty),
            FunctionalKey::NumPadUp => (57419, SequenceTerminator::Kitty),
            FunctionalKey::NumPadDown => (57420, SequenceTerminator::Kitty),
            FunctionalKey::NumPadPageUp => (57421, SequenceTerminator::Kitty),
            FunctionalKey::NumPadPageDown => (57422, SequenceTerminator::Kitty),
            FunctionalKey::NumPadHome => (57423, SequenceTerminator::Kitty),
            FunctionalKey::NumPadEnd => (57424, SequenceTerminator::Kitty),
            FunctionalKey::NumPadInsert => (57425, SequenceTerminator::Kitty),
            FunctionalKey::NumPadDelete => (57426, SequenceTerminator::Kitty),
            FunctionalKey::NumPadBegin => (1, SequenceTerminator::Other('E')),
            FunctionalKey::MediaPlay => (57428, SequenceTerminator::Kitty),
            FunctionalKey::MediaPause => (57429, SequenceTerminator::Kitty),
            FunctionalKey::MediaPlayPause => (57430, SequenceTerminator::Kitty),
            FunctionalKey::MediaReverse => (57431, SequenceTerminator::Kitty),
            FunctionalKey::MediaStop => (57432, SequenceTerminator::Kitty),
            FunctionalKey::MediaFastForward => (57433, SequenceTerminator::Kitty),
            FunctionalKey::MediaRewind => (57434, SequenceTerminator::Kitty),
            FunctionalKey::MediaTrackNext => (57435, SequenceTerminator::Kitty),
            FunctionalKey::MediaTrackPrevious => (57436, SequenceTerminator::Kitty),
            FunctionalKey::MediaRecord => (57437, SequenceTerminator::Kitty),
            FunctionalKey::LowerVolume => (57438, SequenceTerminator::Kitty),
            FunctionalKey::RaiseVolume => (57439, SequenceTerminator::Kitty),
            FunctionalKey::MuteVolume => (57440, SequenceTerminator::Kitty),
            FunctionalKey::LeftShift => (57441, SequenceTerminator::Kitty),
            FunctionalKey::LeftControl => (57442, SequenceTerminator::Kitty),
            FunctionalKey::LeftAlt => (57443, SequenceTerminator::Kitty),
            FunctionalKey::LeftSuper => (57444, SequenceTerminator::Kitty),
            FunctionalKey::LeftHyper => (57445, SequenceTerminator::Kitty),
            FunctionalKey::LeftMeta => (57446, SequenceTerminator::Kitty),
            FunctionalKey::RightShift => (57447, SequenceTerminator::Kitty),
            FunctionalKey::RightControl => (57448, SequenceTerminator::Kitty),
            FunctionalKey::RightAlt => (57449, SequenceTerminator::Kitty),
            FunctionalKey::RightSuper => (57450, SequenceTerminator::Kitty),
            FunctionalKey::RightHyper => (57451, SequenceTerminator::Kitty),
            FunctionalKey::RightMeta => (57452, SequenceTerminator::Kitty),
            FunctionalKey::IsoLevel3Shift => (57453, SequenceTerminator::Kitty),
            FunctionalKey::IsoLevel5Shift => (57454, SequenceTerminator::Kitty),
        };
        new_sequence(code, terminator)
    }

    pub fn is_numpad(&self) -> (r: bool)
        ensures
            r == self.spec_is_numpad(),
    {
        matches!(
            self,
            FunctionalKey::NumPad0
                | FunctionalKey::NumPad1
                | FunctionalKey::NumPad2
                | FunctionalKey::NumPad3
                | FunctionalKey::NumPad4
                | FunctionalKey::NumPad5
                | FunctionalKey::NumPad6
                | FunctionalKey::NumPad7
                | FunctionalKey::NumPad8
                | FunctionalKey::NumPad9
                | FunctionalKey::NumPadDecimal
                | FunctionalKey::NumPadDivide
                | FunctionalKey::NumPadMultply
                | FunctionalKey::NumPadSubtract
                | FunctionalKey::NumPadAdd
                | FunctionalKey::NumPadEnter
                | FunctionalKey::NumPadEqual
                | FunctionalKey::NumPadSeparator
                | FunctionalKey::NumPadLeft
                | FunctionalKey::NumPadRight
                | FunctionalKey::NumPadUp
                | FunctionalKey::NumPadDown
                | FunctionalKey::NumPadPageUp
                | FunctionalKey::NumPadPageDown
                | FunctionalKey::NumPadHome
                | FunctionalKey::NumPadEnd
                | FunctionalKey::NumPadInsert
                | FunctionalKey::NumPadDelete
                | FunctionalKey::NumPadBegin
        )
    }

    pub fn legacy_representation(&self) -> (r: Option<&'static str>)
        ensures
            match r {
                Some(text) => self.spec_legacy() == Some(text@),
                None => self.spec_legacy() is None,
            },
    {
        proof {
            reveal_strlit("\x1b");
            reveal_strlit("\r");
            reveal_strlit("\t");
            reveal_strlit("\x08");
        }
        match self {
            FunctionalKey::Escape => Some("\x1b"),
            FunctionalKey::Enter => Some("\r"),
            FunctionalKey::Tab => Some("\t"),
            FunctionalKey::Backspace => Some("\x08"),
            _ => None,
        }
    }
}

} // verus!
