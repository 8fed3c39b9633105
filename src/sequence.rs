use vstd::prelude::*;
use vstd::string::*;

verus! {

/// The ten decimal digits, indexed by value.
pub open spec fn digit_char(d: nat) -> char {
    seq!['0', '1', '2', '3', '4', '5', '6', '7', '8', '9'][d as int]
}

/// Decimal notation of `n`, most significant digit first, without leading zeros.
pub open spec fn decimal(n: nat) -> Seq<char>
    decreases n,
{
    if n < 10 {
        seq![digit_char(n)]
    } else {
        decimal(n / 10).push(digit_char(n % 10))
    }
}

/// Relies on `String::push`: the character is appended at the end.
#[verifier::external_body]
pub(crate) fn push_char(s: &mut String, c: char)
    ensures
        final(s)@ == old(s)@.push(c),
{
    s.push(c)
}

fn digit(d: u32) -> (c: char)
    requires
        d < 10,
    ensures
        c == digit_char(d as nat),
{
    match d {
        0 => '0',
        1 => '1',
        2 => '2',
        3 => '3',
        4 => '4',
        5 => '5',
        6 => '6',
        7 => '7',
        8 => '8',
        _ => '9',
    }
}

/// Appends the decimal notation of `n`.
fn push_decimal(s: &mut String, n: u32)
    ensures
        final(s)@ == old(s)@ + decimal(n as nat),
    decreases n,
{
    if n >= 10 {
        push_decimal(s, n / 10);
    }
    push_char(s, digit(n % 10));
}

/// The independent modifier flags of a key event, one bit each.
#[derive(Debug, Clone, Copy, PartialEq, Eq, Structural, Default)]
pub struct KeyboardModifiers {
    pub bits: u8,
}

impl KeyboardModifiers {
    pub const SHIFT: u8 = 0b0000_0001;
    pub const ALT: u8 = 0b0000_0010;
    pub const CTRL: u8 = 0b0000_0100;
    pub const SUPER: u8 = 0b0000_1000;
    pub const HYPER: u8 = 0b0001_0000;
    pub const META: u8 = 0b0010_0000;
    pub const CAPS_LOCK: u8 = 0b0100_0000;
    pub const NUM_LOCK: u8 = 0b1000_0000;

    /// Whether any flag of `flags` is set.
    pub open spec fn has_any(self, flags: u8) -> bool {
        self.bits & flags != 0
    }

    /// The protocol's one-based modifier value.
    pub open spec fn spec_text(self) -> Seq<char> {
        decimal(self.bits as nat + 1)
    }

    pub fn empty() -> (r: Self)
        ensures
            r.bits == 0,
    {
        KeyboardModifiers { bits: 0 }
    }

    pub fn all() -> (r: Self)
        ensures
            r.bits == 0xff,
    {
        KeyboardModifiers { bits: 0xff }
    }

    pub fn from_bits_retain(bits: u8) -> (r: Self)
        ensures
            r.bits == bits,
    {
        KeyboardModifiers { bits }
    }

    pub fn bits(&self) -> (r: u8)
        ensures
            r == self.bits,
    {
        self.bits
    }

    pub fn is_empty(&self) -> (r: bool)
        ensures
            r == (self.bits == 0),
    {
        self.bits == 0
    }

    pub fn intersects(&self, flags: u8) -> (r: bool)
        ensures
            r == self.has_any(flags),
    {
        self.bits & flags != 0
    }

    /// The one-based modifier value in decimal: the flag bits plus one.
    pub fn to_string(&self) -> (r: String)
        ensures
            r@ == self.spec_text(),
    {
        let mut s = String::new();
        push_decimal(&mut s, self.bits as u32 + 1);
        s
    }
}

/// Whether the key went down, is held down and repeating, or went up.
#[derive(Debug, Clone, Copy, PartialEq, Eq, Structural, Default)]
pub enum EventType {
    #[default]
    Press,
    Repeat,
    Release,
}

impl EventType {
    pub open spec fn spec_text(self) -> Seq<char> {
        match self {
            EventType::Press => seq!['1'],
            EventType::Repeat => seq!['2'],
            EventType::Release => seq!['3'],
        }
    }

    pub fn to_string(&self) -> (r: String)
        ensures
            r@ == self.spec_text(),
    {
        let mut s = String::new();
        let c = match self {
            EventType::Press => '1',
            EventType::Repeat => '2',
            EventType::Release => '3',
        };
        push_char(&mut s, c);
        s
    }
}

/// The first two characters of a sequence.
#[derive(Debug, Clone, Copy, PartialEq, Eq, Structural, Default)]
pub enum SequenceIntroducer {
    #[default]
    CSI,
    SS3,
}

impl SequenceIntroducer {
    pub open spec fn spec_text(self) -> Seq<char> {
        match self {
            SequenceIntroducer::CSI => seq!['\x1b', '['],
            SequenceIntroducer::SS3 => seq!['\x1b', 'O'],
        }
    }

    pub fn to_string(&self) -> (r: String)
        ensures
            r@ == self.spec_text(),
    {
        let mut s = String::new();
        push_char(&mut s, '\x1b');
        match self {
            SequenceIntroducer::CSI => push_char(&mut s, '['),
            SequenceIntroducer::SS3 => push_char(&mut s, 'O'),
        }
        s
    }
}

/// The final character of a sequence: `u`, or a fixed one that the key prescribes.
#[derive(Debug, Clone, Copy, PartialEq, Eq, Structural, Default)]
pub enum SequenceTerminator {
    #[default]
    Kitty,
    Other(char),
}

impl SequenceTerminator {
    pub open spec fn spec_char(self) -> char {
        match self {
            SequenceTerminator::Kitty => 'u',
            SequenceTerminator::Other(c) => c,
        }
    }

    pub fn to_string(&self) -> (r: String)
        ensures
            r@ == seq![self.spec_char()],
    {
        let mut s = String::new();
        let c = match self {
            SequenceTerminator::Kitty => 'u',
            SequenceTerminator::Other(c) => *c,
        };
        push_char(&mut s, c);
        s
    }
}

/// Code points joined by colons, each in decimal; empty for empty text.
pub open spec fn codes_text(t: Seq<char>) -> Seq<char>
    decreases t.len(),
{
    if t.len() == 0 {
        seq![]
    } else if t.len() == 1 {
        decimal(t[0] as nat)
    } else {
        codes_text(t.drop_last()).push(':') + decimal(t.last() as nat)
    }
}

/// The key's code, with its optional shifted and base-layout alternates.
#[derive(Debug, Clone, Copy, PartialEq, Eq, Structural, Default)]
pub struct KeyCode {
    pub key_code: u32,
    pub shifted_key_code: Option<u32>,
    pub base_layout_key_code: Option<u32>,
}

impl KeyCode {
    /// A lone code of one is left out; alternates follow the code after colons,
    /// with an empty place where only the base-layout code is given.
    pub open spec fn spec_text(self) -> Seq<char> {
        let code = decimal(self.key_code as nat);
        match (self.shifted_key_code, self.base_layout_key_code) {
            (None, None) => if self.key_code == 1 {
                seq![]
            } else {
                code
            },
            (Some(shifted), None) => code.push(':') + decimal(shifted as nat),
            (None, Some(base)) => code.push(':').push(':') + decimal(base as nat),
            (Some(shifted), Some(base)) => code.push(':') + decimal(shifted as nat) + seq![':']
                + decimal(base as nat),
        }
    }

    pub fn to_string(&self) -> (r: String)
        ensures
            r@ == self.spec_text(),
    {
        let mut s = String::new();
        match (self.shifted_key_code, self.base_layout_key_code) {
            (None, None) => {
                if self.key_code != 1 {
                    push_decimal(&mut s, self.key_code);
                }
            },
            (Some(shifted), None) => {
                push_decimal(&mut s, self.key_code);
                push_char(&mut s, ':');
                push_decimal(&mut s, shifted);
            },
            (None, Some(base)) => {
                push_decimal(&mut s, self.key_code);
                push_char(&mut s, ':');
                push_char(&mut s, ':');
                push_decimal(&mut s, base);
            },
            (Some(shifted), Some(base)) => {
                push_decimal(&mut s, self.key_code);
                push_char(&mut s, ':');
                push_decimal(&mut s, shifted);
                push_char(&mut s, ':');
                push_decimal(&mut s, base);
            },
        }
        s
    }
}

/// The text that the key produces, as the platform's layout or input method gave it.
#[derive(Debug, Clone, Default)]
pub struct AssociatedText(pub String);

impl View for AssociatedText {
    type V = Seq<char>;

    open spec fn view(&self) -> Seq<char> {
        self.0@
    }
}

impl AssociatedText {
    pub fn to_string(&self) -> (r: String)
        ensures
            r@ == codes_text(self@),
    {
        let text = self.0.as_str();
        let n = text.unicode_len();
        let mut s = String::new();
        let mut i: usize = 0;
        while i < n
            invariant
                n == text@.len(),
                text@ == self@,
                i <= n,
                s@ == codes_text(self@.take(i as int)),
            decreases n - i,
        {
            let c = text.get_char(i);
            if i > 0 {
                push_char(&mut s, ':');
            }
            push_decimal(&mut s, c as u32);
            assert(self@.take(i + 1).drop_last() =~= self@.take(i as int));
            i = i + 1;
        }
        assert(self@.take(n as int) =~= self@);
        s
    }
}

/// What a sequence states, with its text as characters.
pub struct SequenceView {
    pub introducer: SequenceIntroducer,
    pub key_code: KeyCode,
    pub modifier: KeyboardModifiers,
    pub event_type: EventType,
    pub associated_text: Option<Seq<char>>,
    pub terminator: SequenceTerminator,
}

impl SequenceView {
    /// A sequence that reports Shift must carry the shifted key code.
    pub open spec fn shift_has_alternate(self) -> bool {
        self.modifier.has_any(KeyboardModifiers::SHIFT) ==> self.key_code.shifted_key_code is Some
    }

    /// The fields after the key code, chosen by whether there are modifiers,
    /// whether the event is a press and whether there is text.
    pub open spec fn trailer_text(self) -> Seq<char> {
        let m = self.modifier.spec_text();
        let e = self.event_type.spec_text();
        match self.associated_text {
            None => if self.event_type == EventType::Press {
                if self.modifier.bits == 0 {
                    seq![]
                } else {
                    seq![';'] + m
                }
            } else {
                seq![';'] + m + seq![':'] + e
            },
            Some(t) => if self.event_type == EventType::Press {
                if self.modifier.bits == 0 {
                    seq![';', ';'] + codes_text(t)
                } else {
                    seq![';'] + m + seq![';'] + codes_text(t)
                }
            } else {
                seq![';'] + m + seq![':'] + e + seq![';'] + codes_text(t)
            },
        }
    }

    pub open spec fn spec_text(self) -> Seq<char> {
        self.introducer.spec_text() + self.key_code.spec_text() + self.trailer_text() + seq![
            self.terminator.spec_char(),
        ]
    }
}

/// One escape sequence: introducer, key code, modifiers, event type,
/// optional text and terminator.
#[derive(Debug, Clone, Default)]
pub struct Sequence {
    pub introducer: SequenceIntroducer,
    pub key_code: KeyCode,
    pub modifier: KeyboardModifiers,
    pub event_type: EventType,
    pub associated_text: Option<AssociatedText>,
    pub terminator: SequenceTerminator,
}

impl View for Sequence {
    type V = SequenceView;

    open spec fn view(&self) -> SequenceView {
        SequenceView {
            introducer: self.introducer,
            key_code: self.key_code,
            modifier: self.modifier,
            event_type: self.event_type,
            associated_text: match self.associated_text {
                Some(t) => Some(t@),
                None => None,
            },
            terminator: self.terminator,
        }
    }
}

impl Sequence {
    /// The sequence as it is sent. Reporting Shift without the shifted key
    /// code is a caller's error, refused to verified callers; an unchecked
    /// caller gets the sequence without the shifted code.
    pub fn to_string(&self) -> (r: String)
        requires
            self@.shift_has_alternate(),
        ensures
            r@ == self@.spec_text(),
    {
        let mut s = self.introducer.to_string();
        s.append(self.key_code.to_string().as_str());
        let is_press = match self.event_type {
            EventType::Press => true,
            _ => false,
        };
        match &self.associated_text {
            None => {
                if !is_press || !self.modifier.is_empty() {
                    push_char(&mut s, ';');
                    s.append(self.modifier.to_string().as_str());
                }
                if !is_press {
                    push_char(&mut s, ':');
                    s.append(self.event_type.to_string().as_str());
                }
            },
            Some(text) => {
                push_char(&mut s, ';');
                if !is_press || !self.modifier.is_empty() {
                    s.append(self.modifier.to_string().as_str());
                }
                if !is_press {
                    push_char(&mut s, ':');
                    s.append(self.event_type.to_string().as_str());
                }
                push_char(&mut s, ';');
                s.append(text.to_string().as_str());
            },
        }
        s.append(self.terminator.to_string().as_str());
        s
    }
}

/// Serializing one sequence twice gives the same characters.
pub proof fn lemma_sequence_text_deterministic(s: Sequence, a: String, b: String)
    requires
        call_ensures(Sequence::to_string, (&s,), a),
        call_ensures(Sequence::to_string, (&s,), b),
    ensures
        a@ == b@,
{
}

/// A key code without alternates is written as its decimal value, except
/// that a code of one is left out.
pub proof fn lemma_key_code_shorthand(k: KeyCode)
    requires
        k.shifted_key_code is None,
        k.base_layout_key_code is None,
    ensures
        k.key_code == 1 ==> k.spec_text() == Seq::<char>::empty(),
        k.key_code != 1 ==> k.spec_text() == decimal(k.key_code as nat),
{
}

} // verus!
