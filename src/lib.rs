//! Encoding of key events for terminals that speak the extended keyboard
//! protocol: each event becomes plain text, one character, one escape
//! sequence, or nothing, as the negotiated reporting mode asks.
pub mod key;
pub mod sequence;

use key::{FunctionalKey, KeyType};
use sequence::{push_char, AssociatedText, EventType, KeyboardModifiers, Sequence, SequenceView};
use vstd::prelude::*;
use vstd::string::*;

verus! {

/// The protocol features that the application asked for, one bit each.
#[derive(Debug, Clone, Copy, PartialEq, Eq, Structural, Default)]
pub struct ReportingMode {
    pub bits: u8,
}

impl ReportingMode {
    pub const DISAMBIGUATE_ESC_CODES: u8 = 0b0000_0001;
    pub const REPORT_EVENT_TYPES: u8 = 0b0000_0010;
    pub const REPORT_ALTERNATE_KEYS: u8 = 0b0000_0100;
    pub const REPORT_ALL_KEYS_AS_ESC: u8 = 0b0000_1000;
    pub const REPORT_ASSOCIATED_TEXT: u8 = 0b0001_0000;

    /// Whether any flag of `flags` is set.
    pub open spec fn has_any(self, flags: u8) -> bool {
        self.bits & flags != 0
    }

    pub fn empty() -> (r: Self)
        ensures
            r.bits == 0,
    {
        ReportingMode { bits: 0 }
    }

    /// Every feature that the protocol defines.
    pub fn all() -> (r: Self)
        ensures
            r.bits == 0b0001_1111,
    {
        ReportingMode { bits: 0b0001_1111 }
    }

    pub fn from_bits_retain(bits: u8) -> (r: Self)
        ensures
            r.bits == bits,
    {
        ReportingMode { bits }
    }

    pub fn bits(&self) -> (r: u8)
        ensures
            r == self.bits,
    {
        self.bits
    }

    pub fn intersects(&self, flags: u8) -> (r: bool)
        ensures
            r == self.has_any(flags),
    {
        self.bits & flags != 0
    }
}

/// What a terminal sends for one key event.
#[derive(Debug, Clone, Default)]
pub enum EventResponse {
    Text { text: String, alt_pressed: bool },
    Character { character: char, alt_pressed: bool },
    Sequence(Sequence),
    #[default]
    Nothing,
}

/// A response, with its text as characters.
pub enum ResponseView {
    Text { text: Seq<char>, alt_pressed: bool },
    Character { character: char, alt_pressed: bool },
    Sequence(SequenceView),
    Nothing,
}

impl View for EventResponse {
    type V = ResponseView;

    open spec fn view(&self) -> ResponseView {
        match self {
            EventResponse::Text { text, alt_pressed } => ResponseView::Text {
                text: text@,
                alt_pressed: *alt_pressed,
            },
            EventResponse::Character { character, alt_pressed } => ResponseView::Character {
                character: *character,
                alt_pressed: *alt_pressed,
            },
            EventResponse::Sequence(s) => ResponseView::Sequence(s@),
            EventResponse::Nothing => ResponseView::Nothing,
        }
    }
}

impl ResponseView {
    /// Every sequence in the response carries the shifted key code when it reports Shift.
    pub open spec fn can_serialize(self) -> bool {
        match self {
            ResponseView::Sequence(s) => s.shift_has_alternate(),
            _ => true,
        }
    }

    /// What is sent: text and characters get an escape in front where Alt
    /// was held.
    pub open spec fn spec_text(self) -> Seq<char> {
        match self {
            ResponseView::Text { text, alt_pressed } => if alt_pressed {
                seq!['\x1b'] + text
            } else {
                text
            },
            ResponseView::Character { character, alt_pressed } => if alt_pressed {
                seq!['\x1b', character]
            } else {
                seq![character]
            },
            ResponseView::Sequence(s) => s.spec_text(),
            ResponseView::Nothing => seq![],
        }
    }
}

impl EventResponse {
    pub fn to_string(&self) -> (r: String)
        requires
            self@.can_serialize(),
        ensures
            r@ == self@.spec_text(),
    {
        match self {
            EventResponse::Text { text, alt_pressed } => {
                let mut s = String::new();
                if *alt_pressed {
                    push_char(&mut s, '\x1b');
                }
                s.append(text.as_str());
                s
            },
            EventResponse::Character { character, alt_pressed } => {
                let mut s = String::new();
                if *alt_pressed {
                    push_char(&mut s, '\x1b');
                }
                push_char(&mut s, *character);
                s
            },
            EventResponse::Sequence(seq) => seq.to_string(),
            EventResponse::Nothing => String::new(),
        }
    }
}

/// What the host terminal knows of a key event.
pub trait KeyEvent {
    fn key_with_modifiers(&self) -> KeyType;

    fn key_without_modifiers(&self) -> KeyType;

    fn key_base_layout(&self) -> KeyType;

    fn modifiers(&self) -> KeyboardModifiers;

    fn event_type(&self) -> EventType;

    fn associated_text(&self) -> Option<AssociatedText>;
}

/// The answers of a `KeyEvent`, held as values.
#[derive(Debug, Clone, Default)]
pub struct KeyEventRecord {
    pub key_with_modifiers: KeyType,
    pub key_without_modifiers: KeyType,
    pub key_base_layout: KeyType,
    pub modifiers: KeyboardModifiers,
    pub event_type: EventType,
    pub associated_text: Option<AssociatedText>,
}

/// A recorded event, with its text as characters.
pub struct KeyEventView {
    pub key_with_modifiers: KeyType,
    pub key_without_modifiers: KeyType,
    pub key_base_layout: KeyType,
    pub modifiers: KeyboardModifiers,
    pub event_type: EventType,
    pub associated_text: Option<Seq<char>>,
}

impl View for KeyEventRecord {
    type V = KeyEventView;

    open spec fn view(&self) -> KeyEventView {
        KeyEventView {
            key_with_modifiers: self.key_with_modifiers,
            key_without_modifiers: self.key_without_modifiers,
            key_base_layout: self.key_base_layout,
            modifiers: self.modifiers,
            event_type: self.event_type,
            associated_text: text_view(self.associated_text),
        }
    }
}

pub open spec fn text_view(t: Option<AssociatedText>) -> Option<Seq<char>> {
    match t {
        Some(t) => Some(t@),
        None => None,
    }
}

/// The key's sequence, or nothing where the key has none.
pub open spec fn sequence_or_nothing(key: KeyType) -> ResponseView {
    match key.spec_sequence() {
        Some(s) => ResponseView::Sequence(s),
        None => ResponseView::Nothing,
    }
}

/// Enter, Tab and Backspace keep their plain text under modifiers.
pub open spec fn is_text_exception(key: KeyType) -> bool {
    key == KeyType::Functional(FunctionalKey::Enter) || key == KeyType::Functional(
        FunctionalKey::Tab,
    ) || key == KeyType::Functional(FunctionalKey::Backspace)
}

/// The form of the response, before a sequence gets the event's fields.
pub open spec fn selected_response(mode: ReportingMode, ev: KeyEventView) -> ResponseView {
    if mode.has_any(ReportingMode::REPORT_ALL_KEYS_AS_ESC) {
        sequence_or_nothing(ev.key_without_modifiers)
    } else if mode.has_any(ReportingMode::DISAMBIGUATE_ESC_CODES) {
        if ev.modifiers.bits & !KeyboardModifiers::SHIFT == 0 || is_text_exception(
            ev.key_without_modifiers,
        ) {
            match ev.key_with_modifiers {
                KeyType::Functional(f) => if f == FunctionalKey::Escape || f.spec_is_numpad() {
                    ResponseView::Sequence(f.spec_sequence())
                } else {
                    match f.spec_legacy() {
                        Some(text) => ResponseView::Text { text, alt_pressed: false },
                        None => ResponseView::Sequence(f.spec_sequence()),
                    }
                },
                KeyType::Unicode(c) => ResponseView::Character { character: c, alt_pressed: false },
                KeyType::Unknown => ResponseView::Nothing,
            }
        } else {
            sequence_or_nothing(ev.key_without_modifiers)
        }
    } else {
        let alt = ev.modifiers.has_any(KeyboardModifiers::ALT);
        match ev.key_with_modifiers {
            KeyType::Unicode(c) => ResponseView::Character { character: c, alt_pressed: alt },
            KeyType::Functional(f) => match f.spec_legacy() {
                Some(text) => ResponseView::Text { text, alt_pressed: alt },
                None => match ev.associated_text {
                    Some(text) => ResponseView::Text { text, alt_pressed: alt },
                    None => ResponseView::Sequence(f.spec_sequence()),
                },
            },
            KeyType::Unknown => ResponseView::Nothing,
        }
    }
}

/// A sequence with the event's modifiers, and with its event type,
/// alternate key codes and text where the mode asks for them.
pub open spec fn augmented(mode: ReportingMode, ev: KeyEventView, s: SequenceView) -> SequenceView {
    let key_code = if mode.has_any(ReportingMode::REPORT_ALTERNATE_KEYS) {
        sequence::KeyCode {
            key_code: s.key_code.key_code,
            shifted_key_code: if ev.modifiers.has_any(KeyboardModifiers::SHIFT) {
                ev.key_with_modifiers.spec_key_code()
            } else {
                s.key_code.shifted_key_code
            },
            base_layout_key_code: ev.key_base_layout.spec_key_code(),
        }
    } else {
        s.key_code
    };
    SequenceView {
        introducer: s.introducer,
        key_code,
        modifier: ev.modifiers,
        event_type: if mode.has_any(ReportingMode::REPORT_EVENT_TYPES) {
            ev.event_type
        } else {
            s.event_type
        },
        associated_text: if mode.has_any(ReportingMode::REPORT_ASSOCIATED_TEXT) {
            ev.associated_text
        } else {
            s.associated_text
        },
        terminator: s.terminator,
    }
}

/// The response to an event under a reporting mode. A release is dropped
/// where event types are not reported, and wherever the response is not a
/// sequence.
pub open spec fn response_of(mode: ReportingMode, ev: KeyEventView) -> ResponseView {
    if ev.event_type == EventType::Release && !mode.has_any(ReportingMode::REPORT_EVENT_TYPES) {
        ResponseView::Nothing
    } else {
        match selected_response(mode, ev) {
            ResponseView::Sequence(s) => ResponseView::Sequence(augmented(mode, ev, s)),
            other => if ev.event_type == EventType::Release {
                ResponseView::Nothing
            } else {
                other
            },
        }
    }
}

fn copy_text(t: &Option<AssociatedText>) -> (r: Option<AssociatedText>)
    ensures
        text_view(r) == text_view(*t),
{
    match t {
        Some(text) => Some(AssociatedText(text.0.clone())),
        None => None,
    }
}

fn key_sequence(key: KeyType) -> (r: EventResponse)
    ensures
        r@ == sequence_or_nothing(key),
{
    match key.to_sequence() {
        Some(s) => EventResponse::Sequence(s),
        None => EventResponse::Nothing,
    }
}

fn select(mode: ReportingMode, event: &KeyEventRecord) -> (r: EventResponse)
    ensures
        r@ == selected_response(mode, event@),
{
    let shifted_key = event.key_with_modifiers;
    let unshifted_key = event.key_without_modifiers;
    let modifiers = event.modifiers;
    if mode.intersects(ReportingMode::REPORT_ALL_KEYS_AS_ESC) {
        key_sequence(unshifted_key)
    } else if mode.intersects(ReportingMode::DISAMBIGUATE_ESC_CODES) {
        let exception = match unshifted_key {
            KeyType::Functional(FunctionalKey::Enter)
            | KeyType::Functional(FunctionalKey::Tab)
            | KeyType::Functional(FunctionalKey::Backspace) => true,
            _ => false,
        };
        if modifiers.bits & !KeyboardModifiers::SHIFT == 0 || exception {
            match shifted_key {
                KeyType::Functional(func) => {
                    if func == FunctionalKey::Escape || func.is_numpad() {
                        EventResponse::Sequence(func.to_sequence())
                    } else {
                        match func.legacy_representation() {
                            Some(repr) => EventResponse::Text {
                                text: repr.to_owned(),
                                alt_pressed: false,
                            },
                            None => EventResponse::Sequence(func.to_sequence()),
                        }
                    }
                },
                KeyType::Unicode(character) => EventResponse::Character {
                    character,
                    alt_pressed: false,
                },
                KeyType::Unknown => EventResponse::Nothing,
            }
        } else {
            key_sequence(unshifted_key)
        }
    } else {
        let alt_pressed = modifiers.intersects(KeyboardModifiers::ALT);
        match shifted_key {
            KeyType::Unicode(character) => EventResponse::Character { character, alt_pressed },
            KeyType::Functional(func) => match func.legacy_representation() {
                Some(repr) => EventResponse::Text { text: repr.to_owned(), alt_pressed },
                None => match &event.associated_text {
                    Some(at) => EventResponse::Text { text: at.0.clone(), alt_pressed },
                    None => EventResponse::Sequence(func.to_sequence()),
                },
            },
            KeyType::Unknown => EventResponse::Nothing,
        }
    }
}

/// The response to a recorded event under `mode`.
pub fn encode(mode: ReportingMode, event: &KeyEventRecord) -> (r: EventResponse)
    ensures
        r@ == response_of(mode, event@),
{
    let is_release = match event.event_type {
        EventType::Release => true,
        _ => false,
    };
    if is_release && !mode.intersects(ReportingMode::REPORT_EVENT_TYPES) {
        return EventResponse::Nothing;
    }
    let response = select(mode, event);
    match response {
        EventResponse::Sequence(mut sequence) => {
            sequence.modifier = event.modifiers;
            if mode.intersects(ReportingMode::REPORT_EVENT_TYPES) {
                sequence.event_type = event.event_type;
            }
            if mode.intersects(ReportingMode::REPORT_ALTERNATE_KEYS) {
                if event.modifiers.intersects(KeyboardModifiers::SHIFT) {
                    sequence.key_code.shifted_key_code = event.key_with_modifiers.to_key_code();
                }
                sequence.key_code.base_layout_key_code = event.key_base_layout.to_key_code();
            }
            if mode.intersects(ReportingMode::REPORT_ASSOCIATED_TEXT) {
                sequence.associated_text = copy_text(&event.associated_text);
            }
            EventResponse::Sequence(sequence)
        },
        other => {
            if is_release {
                EventResponse::Nothing
            } else {
                other
            }
        },
    }
}

/// Reads the event once through its interface and encodes it: the response
/// is that of `encode` for what the event reported.
pub fn generate_sequence<E: KeyEvent>(mode: ReportingMode, key_event: &E) -> (r: EventResponse)
    ensures
        exists|ev: KeyEventView| r@ == response_of(mode, ev),
{
    let record = KeyEventRecord {
        key_with_modifiers: key_event.key_with_modifiers(),
        key_without_modifiers: key_event.key_without_modifiers(),
        key_base_layout: key_event.key_base_layout(),
        modifiers: key_event.modifiers(),
        event_type: key_event.event_type(),
        associated_text: key_event.associated_text(),
    };
    encode(mode, &record)
}

/// A release is never reported where the mode does not report event types,
/// whatever the key, its modifiers or its text.
pub proof fn lemma_release_without_event_types(mode: ReportingMode, ev: KeyEventView)
    requires
        ev.event_type == EventType::Release,
        !mode.has_any(ReportingMode::REPORT_EVENT_TYPES),
    ensures
        response_of(mode, ev) == ResponseView::Nothing,
{
}

/// The encoder's response can be serialized whenever Shift is not held, and
/// whenever alternate keys are reported for a character key.
pub proof fn lemma_response_serializes(mode: ReportingMode, ev: KeyEventView)
    requires
        !ev.modifiers.has_any(KeyboardModifiers::SHIFT) || (mode.has_any(
            ReportingMode::REPORT_ALTERNATE_KEYS,
        ) && ev.key_with_modifiers is Unicode),
    ensures
        response_of(mode, ev).can_serialize(),
{
}

} // verus!
