use kitty_keys::key::{FunctionalKey, KeyType};
use kitty_keys::sequence::{AssociatedText, EventType, KeyCode, KeyboardModifiers, Sequence};
use kitty_keys::{encode, generate_sequence, EventResponse, KeyEvent, KeyEventRecord, ReportingMode};

#[derive(Debug, Clone, Default)]
struct DummyKeyEvent {
    key_with_modifiers: KeyType,
    key_without_modifiers: KeyType,
    key_base_layout: KeyType,

    modifiers: KeyboardModifiers,
    event_type: EventType,
    associated_text: Option<String>,
}

impl KeyEvent for DummyKeyEvent {
    fn key_with_modifiers(&self) -> KeyType {
        self.key_with_modifiers
    }

    fn key_without_modifiers(&self) -> KeyType {
        self.key_without_modifiers
    }

    fn key_base_layout(&self) -> KeyType {
        self.key_base_layout
    }

    fn modifiers(&self) -> KeyboardModifiers {
        self.modifiers
    }

    fn event_type(&self) -> EventType {
        self.event_type
    }

    fn associated_text(&self) -> Option<AssociatedText> {
        self.associated_text.as_ref().map(|t| AssociatedText(t.clone()))
    }
}

fn functional(key: FunctionalKey) -> KeyType {
    KeyType::Functional(key)
}

fn mode(bits: u8) -> ReportingMode {
    ReportingMode::from_bits_retain(bits)
}

/// Shifted A, Escape, Backspace, Up repeated, keypad 5 with text, Ctrl+C,
/// and b released, each encoded under `mode` and serialized.
fn run_cases(mode: ReportingMode, expected: [&str; 7]) {
    let unicode_event = DummyKeyEvent {
        key_with_modifiers: KeyType::Unicode('A'),
        key_without_modifiers: KeyType::Unicode('a'),
        modifiers: KeyboardModifiers::from_bits_retain(KeyboardModifiers::SHIFT),
        ..Default::default()
    };
    let response = generate_sequence(mode, &unicode_event);
    assert_eq!(response.to_string(), expected[0], "Shifted A");

    let esc_event = DummyKeyEvent {
        key_with_modifiers: functional(FunctionalKey::Escape),
        key_without_modifiers: functional(FunctionalKey::Escape),
        ..Default::default()
    };
    let response = generate_sequence(mode, &esc_event);
    assert_eq!(response.to_string(), expected[1], "Escape");

    let backspace_event = DummyKeyEvent {
        key_with_modifiers: functional(FunctionalKey::Backspace),
        key_without_modifiers: functional(FunctionalKey::Backspace),
        ..Default::default()
    };
    let response = generate_sequence(mode, &backspace_event);
    assert_eq!(response.to_string(), expected[2], "Backspace");

    let arrow_event = DummyKeyEvent {
        key_with_modifiers: functional(FunctionalKey::Up),
        key_without_modifiers: functional(FunctionalKey::Up),
        event_type: EventType::Repeat,
        ..Default::default()
    };
    let response = generate_sequence(mode, &arrow_event);
    assert_eq!(response.to_string(), expected[3], "Arrow Key Up Released");

    let numpad_event = DummyKeyEvent {
        key_with_modifiers: functional(FunctionalKey::NumPad5),
        key_without_modifiers: functional(FunctionalKey::NumPad5),
        associated_text: Some("5".into()),
        ..Default::default()
    };
    let response = generate_sequence(mode, &numpad_event);
    assert_eq!(response.to_string(), expected[4], "NumPad Key 5");

    let ctrl_c_event = DummyKeyEvent {
        key_with_modifiers: KeyType::Unicode('\x03'),
        key_without_modifiers: KeyType::Unicode('c'),
        modifiers: KeyboardModifiers::from_bits_retain(KeyboardModifiers::CTRL),
        ..Default::default()
    };
    let response = generate_sequence(mode, &ctrl_c_event);
    assert_eq!(response.to_string(), expected[5], "CTRL + C");

    let release_event = DummyKeyEvent {
        key_with_modifiers: KeyType::Unicode('b'),
        key_without_modifiers: KeyType::Unicode('b'),
        event_type: EventType::Release,
        ..Default::default()
    };
    let response = generate_sequence(mode, &release_event);
    assert_eq!(response.to_string(), expected[6], "Key b released");
}

#[test]
fn test_generation_legacy() {
    run_cases(
        ReportingMode::empty(),
        ["A", "\x1b", "\x08", "\x1b[A", "5", "\x03", ""],
    );
}

#[test]
fn test_generation_disambiguate() {
    run_cases(
        mode(ReportingMode::DISAMBIGUATE_ESC_CODES),
        ["A", "\x1b[27u", "\x08", "\x1b[A", "\x1b[57404u", "\x1b[99;5u", ""],
    );
}

#[test]
fn test_generation_event_types() {
    run_cases(
        mode(ReportingMode::DISAMBIGUATE_ESC_CODES | ReportingMode::REPORT_EVENT_TYPES),
        ["A", "\x1b[27u", "\x08", "\x1b[;1:2A", "\x1b[57404u", "\x1b[99;5u", ""],
    );
}

#[test]
fn test_generation_alternate_keys() {
    run_cases(
        mode(
            ReportingMode::DISAMBIGUATE_ESC_CODES
                | ReportingMode::REPORT_EVENT_TYPES
                | ReportingMode::REPORT_ALTERNATE_KEYS,
        ),
        ["A", "\x1b[27u", "\x08", "\x1b[;1:2A", "\x1b[57404u", "\x1b[99;5u", ""],
    );
}

#[test]
fn test_generation_all_keys_as_esc() {
    run_cases(
        mode(
            ReportingMode::DISAMBIGUATE_ESC_CODES
                | ReportingMode::REPORT_EVENT_TYPES
                | ReportingMode::REPORT_ALTERNATE_KEYS
                | ReportingMode::REPORT_ALL_KEYS_AS_ESC,
        ),
        [
            "\x1b[97:65;2u",
            "\x1b[27u",
            "\x1b[127u",
            "\x1b[;1:2A",
            "\x1b[57404u",
            "\x1b[99;5u",
            "\x1b[98;1:3u",
        ],
    );
}

#[test]
fn test_generation_all_modes() {
    run_cases(
        ReportingMode::all(),
        [
            "\x1b[97:65;2u",
            "\x1b[27u",
            "\x1b[127u",
            "\x1b[;1:2A",
            "\x1b[57404;;53u",
            "\x1b[99;5u",
            "\x1b[98;1:3u",
        ],
    );
}

#[test]
fn response_display() {
    let short_sequence = Sequence {
        key_code: KeyCode {
            key_code: u32::from('a'),
            ..Default::default()
        },
        ..Default::default()
    };

    assert_eq!(EventResponse::Sequence(short_sequence).to_string(), "\x1b[97u");

    assert_eq!(
        EventResponse::Text {
            text: String::from("a"),
            alt_pressed: false
        }
        .to_string(),
        "a"
    );
    assert_eq!(
        EventResponse::Text {
            text: String::from("a"),
            alt_pressed: true
        }
        .to_string(),
        "\x1ba"
    );
}

#[test]
fn character_response_display() {
    let plain = EventResponse::Character {
        character: 'é',
        alt_pressed: false,
    };
    assert_eq!(plain.to_string(), "é");
    let alt = EventResponse::Character {
        character: 'x',
        alt_pressed: true,
    };
    assert_eq!(alt.to_string(), "\x1bx");
    assert_eq!(EventResponse::Nothing.to_string(), "");
}

#[test]
fn release_without_event_types_is_dropped() {
    let keys = [
        KeyType::Unicode('b'),
        functional(FunctionalKey::Escape),
        functional(FunctionalKey::Up),
        functional(FunctionalKey::NumPad5),
        KeyType::Unknown,
    ];
    for bits in [0u8, 0b0001, 0b0101, 0b1001, 0b1_1101] {
        for key in keys {
            let event = DummyKeyEvent {
                key_with_modifiers: key,
                key_without_modifiers: key,
                modifiers: KeyboardModifiers::from_bits_retain(KeyboardModifiers::CTRL),
                event_type: EventType::Release,
                associated_text: Some("x".into()),
                ..Default::default()
            };
            assert!(matches!(
                generate_sequence(mode(bits), &event),
                EventResponse::Nothing
            ));
        }
    }
}

#[test]
fn text_release_is_dropped_even_with_event_types() {
    let event = DummyKeyEvent {
        key_with_modifiers: KeyType::Unicode('b'),
        key_without_modifiers: KeyType::Unicode('b'),
        event_type: EventType::Release,
        ..Default::default()
    };
    let m = mode(ReportingMode::DISAMBIGUATE_ESC_CODES | ReportingMode::REPORT_EVENT_TYPES);
    assert!(matches!(generate_sequence(m, &event), EventResponse::Nothing));
}

#[test]
fn disambiguate_keeps_enter_text_under_modifiers() {
    let m = mode(ReportingMode::DISAMBIGUATE_ESC_CODES);
    for bits in [KeyboardModifiers::SHIFT, KeyboardModifiers::CTRL | KeyboardModifiers::ALT] {
        let event = DummyKeyEvent {
            key_with_modifiers: functional(FunctionalKey::Enter),
            key_without_modifiers: functional(FunctionalKey::Enter),
            modifiers: KeyboardModifiers::from_bits_retain(bits),
            ..Default::default()
        };
        assert_eq!(generate_sequence(m, &event).to_string(), "\r");
    }
    let ctrl_up = DummyKeyEvent {
        key_with_modifiers: functional(FunctionalKey::Up),
        key_without_modifiers: functional(FunctionalKey::Up),
        modifiers: KeyboardModifiers::from_bits_retain(KeyboardModifiers::CTRL),
        ..Default::default()
    };
    assert_eq!(generate_sequence(m, &ctrl_up).to_string(), "\x1b[;5A");
}

#[test]
fn legacy_text_and_alt() {
    let alt_a = DummyKeyEvent {
        key_with_modifiers: KeyType::Unicode('a'),
        key_without_modifiers: KeyType::Unicode('a'),
        modifiers: KeyboardModifiers::from_bits_retain(KeyboardModifiers::ALT),
        ..Default::default()
    };
    assert_eq!(generate_sequence(ReportingMode::empty(), &alt_a).to_string(), "\x1ba");

    let escape_with_text = DummyKeyEvent {
        key_with_modifiers: functional(FunctionalKey::Escape),
        key_without_modifiers: functional(FunctionalKey::Escape),
        associated_text: Some("x".into()),
        ..Default::default()
    };
    assert_eq!(
        generate_sequence(ReportingMode::empty(), &escape_with_text).to_string(),
        "\x1b"
    );

    let alt_numpad = DummyKeyEvent {
        key_with_modifiers: functional(FunctionalKey::NumPad7),
        key_without_modifiers: functional(FunctionalKey::NumPad7),
        modifiers: KeyboardModifiers::from_bits_retain(KeyboardModifiers::ALT),
        associated_text: Some("7".into()),
        ..Default::default()
    };
    assert_eq!(generate_sequence(ReportingMode::empty(), &alt_numpad).to_string(), "\x1b7");

    let unknown = DummyKeyEvent::default();
    assert!(matches!(
        generate_sequence(ReportingMode::empty(), &unknown),
        EventResponse::Nothing
    ));
}

#[test]
fn alternate_keys_base_layout() {
    let event = KeyEventRecord {
        key_with_modifiers: KeyType::Unicode('q'),
        key_without_modifiers: KeyType::Unicode('q'),
        key_base_layout: KeyType::Unicode('a'),
        modifiers: KeyboardModifiers::from_bits_retain(KeyboardModifiers::CTRL),
        ..Default::default()
    };
    let m = mode(ReportingMode::DISAMBIGUATE_ESC_CODES | ReportingMode::REPORT_ALTERNATE_KEYS);
    assert_eq!(encode(m, &event).to_string(), "\x1b[113::97;5u");
}

#[test]
fn key_table_entries() {
    assert_eq!(FunctionalKey::F3.to_sequence().to_string(), "\x1b[13~");
    assert_eq!(FunctionalKey::Home.to_sequence().to_string(), "\x1b[H");
    assert_eq!(FunctionalKey::NumPadBegin.to_sequence().to_string(), "\x1b[E");
    assert_eq!(FunctionalKey::IsoLevel5Shift.to_sequence().to_string(), "\x1b[57454u");
    assert!(FunctionalKey::NumPadBegin.is_numpad());
    assert!(!FunctionalKey::Home.is_numpad());
    assert_eq!(FunctionalKey::Tab.legacy_representation(), Some("\t"));
    assert_eq!(FunctionalKey::F1.legacy_representation(), None);
    assert_eq!(KeyType::Unicode('a').to_key_code(), Some(97));
    assert_eq!(functional(FunctionalKey::Up).to_key_code(), None);
    assert!(KeyType::Unknown.to_sequence().is_none());
}
