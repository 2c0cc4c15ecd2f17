use azalea_chat::nbt::{Compound, Tag};
use azalea_chat::{ClickEvent, DecodeError};

fn compound_of(entries: Vec<(&str, Tag)>) -> Compound {
    let mut compound = Compound::new();
    for (name, tag) in entries {
        compound.insert(name, tag);
    }
    compound
}

fn text(s: &str) -> Tag {
    Tag::String(s.to_string())
}

fn entry(name: &str, tag: Tag) -> (String, Tag) {
    (name.to_string(), tag)
}

fn all_events() -> Vec<ClickEvent> {
    vec![
        ClickEvent::OpenUrl { url: "https://example.com/a?b=c".to_string() },
        ClickEvent::OpenFile { path: "/tmp/notes.txt".to_string() },
        ClickEvent::RunCommand { command: "/say hello".to_string() },
        ClickEvent::SuggestCommand { command: "/tell ".to_string() },
        ClickEvent::ShowDialog,
        ClickEvent::ChangePage { page: 42 },
        ClickEvent::CopyToClipboard { value: "copied".to_string() },
        ClickEvent::Custom { id: "minecraft:thing".to_string(), payload: () },
    ]
}

#[test]
fn binary_round_trip_gives_every_variant_back() {
    for event in all_events() {
        let compound = event.clone().to_compound();
        assert_eq!(ClickEvent::from_compound(&compound), Ok(event));
    }
}

#[test]
fn binary_round_trip_of_custom_has_the_unit_payload() {
    let event = ClickEvent::Custom { id: "my:id".to_string(), payload: () };
    let back = ClickEvent::from_compound(&event.to_compound());
    assert_eq!(back, Ok(ClickEvent::Custom { id: "my:id".to_string(), payload: () }));
}

#[test]
fn open_url_is_written_under_the_unified_key() {
    let compound = ClickEvent::OpenUrl { url: "https://a.b".to_string() }.to_compound();
    assert_eq!(
        compound.entries,
        vec![entry("action", text("open_url")), entry("value", text("https://a.b"))]
    );
}

#[test]
fn open_file_is_written_under_the_unified_key() {
    let compound = ClickEvent::OpenFile { path: "C:\\x".to_string() }.to_compound();
    assert_eq!(
        compound.entries,
        vec![entry("action", text("open_file")), entry("value", text("C:\\x"))]
    );
}

#[test]
fn run_command_is_written_under_the_unified_key() {
    let compound = ClickEvent::RunCommand { command: "/kill".to_string() }.to_compound();
    assert_eq!(
        compound.entries,
        vec![entry("action", text("run_command")), entry("value", text("/kill"))]
    );
}

#[test]
fn suggest_command_is_written_under_the_unified_key() {
    let compound = ClickEvent::SuggestCommand { command: "/msg ".to_string() }.to_compound();
    assert_eq!(
        compound.entries,
        vec![entry("action", text("suggest_command")), entry("value", text("/msg "))]
    );
}

#[test]
fn show_dialog_is_written_as_its_action_alone() {
    let compound = ClickEvent::ShowDialog.to_compound();
    assert_eq!(compound.entries, vec![entry("action", text("show_dialog"))]);
}

#[test]
fn change_page_is_written_as_an_integer_tag() {
    let compound = ClickEvent::ChangePage { page: -7 }.to_compound();
    assert_eq!(
        compound.entries,
        vec![entry("action", text("change_page")), entry("value", Tag::Int(-7))]
    );
}

#[test]
fn copy_to_clipboard_is_written_under_value() {
    let compound = ClickEvent::CopyToClipboard { value: "x y".to_string() }.to_compound();
    assert_eq!(
        compound.entries,
        vec![entry("action", text("copy_to_clipboard")), entry("value", text("x y"))]
    );
}

#[test]
fn custom_is_written_with_its_id_and_no_payload() {
    let compound = ClickEvent::Custom { id: "a:b".to_string(), payload: () }.to_compound();
    assert_eq!(compound.entries, vec![entry("action", text("custom")), entry("id", text("a:b"))]);
}

#[test]
fn binary_decoder_accepts_the_legacy_keys() {
    let cases = vec![
        ("open_url", "url", ClickEvent::OpenUrl { url: "u".to_string() }),
        ("open_file", "path", ClickEvent::OpenFile { path: "u".to_string() }),
        ("run_command", "command", ClickEvent::RunCommand { command: "u".to_string() }),
        ("suggest_command", "command", ClickEvent::SuggestCommand { command: "u".to_string() }),
    ];
    for (action, alias, expected) in cases {
        let legacy = compound_of(vec![("action", text(action)), (alias, text("u"))]);
        let unified = compound_of(vec![("action", text(action)), ("value", text("u"))]);
        assert_eq!(ClickEvent::from_compound(&legacy), Ok(expected));
        assert_eq!(ClickEvent::from_compound(&legacy), ClickEvent::from_compound(&unified));
    }
    let legacy = compound_of(vec![("action", text("change_page")), ("page", Tag::Int(3))]);
    assert_eq!(ClickEvent::from_compound(&legacy), Ok(ClickEvent::ChangePage { page: 3 }));
}

#[test]
fn binary_decoder_prefers_the_unified_key() {
    let compound = compound_of(vec![
        ("action", text("open_url")),
        ("url", text("legacy")),
        ("value", text("unified")),
    ]);
    assert_eq!(
        ClickEvent::from_compound(&compound),
        Ok(ClickEvent::OpenUrl { url: "unified".to_string() })
    );
    let compound = compound_of(vec![
        ("page", Tag::Int(1)),
        ("value", Tag::Int(2)),
        ("action", text("change_page")),
    ]);
    assert_eq!(ClickEvent::from_compound(&compound), Ok(ClickEvent::ChangePage { page: 2 }));
}

#[test]
fn binary_decoder_falls_back_when_the_unified_key_has_another_type() {
    let compound = compound_of(vec![
        ("action", text("change_page")),
        ("value", text("12")),
        ("page", Tag::Int(5)),
    ]);
    assert_eq!(ClickEvent::from_compound(&compound), Ok(ClickEvent::ChangePage { page: 5 }));
    let compound = compound_of(vec![
        ("action", text("open_file")),
        ("value", Tag::Int(1)),
        ("path", text("/p")),
    ]);
    assert_eq!(
        ClickEvent::from_compound(&compound),
        Ok(ClickEvent::OpenFile { path: "/p".to_string() })
    );
}

#[test]
fn binary_decoder_rejects_an_unknown_action() {
    for action in ["", "open", "OPEN_URL", "open_url ", "openurl", "teleport", "action"] {
        let compound = compound_of(vec![("action", text(action)), ("value", text("v"))]);
        assert_eq!(ClickEvent::from_compound(&compound), Err(DecodeError::UnrecognizedAction));
    }
}

#[test]
fn binary_decoder_needs_a_string_action() {
    assert_eq!(ClickEvent::from_compound(&Compound::new()), Err(DecodeError::MissingField));
    let compound = compound_of(vec![("value", text("open_url"))]);
    assert_eq!(ClickEvent::from_compound(&compound), Err(DecodeError::MissingField));
    let compound = compound_of(vec![("action", Tag::Int(1)), ("value", text("v"))]);
    assert_eq!(ClickEvent::from_compound(&compound), Err(DecodeError::MissingField));
    let compound = compound_of(vec![("action", Tag::Other)]);
    assert_eq!(ClickEvent::from_compound(&compound), Err(DecodeError::MissingField));
}

#[test]
fn binary_decoder_rejects_a_missing_payload() {
    for action in [
        "open_url",
        "open_file",
        "run_command",
        "suggest_command",
        "change_page",
        "copy_to_clipboard",
        "custom",
    ] {
        let compound = compound_of(vec![("action", text(action))]);
        assert_eq!(ClickEvent::from_compound(&compound), Err(DecodeError::MissingField));
    }
}

#[test]
fn binary_decoder_does_not_read_a_string_as_a_page_number() {
    let compound = compound_of(vec![("action", text("change_page")), ("value", text("12"))]);
    assert_eq!(ClickEvent::from_compound(&compound), Err(DecodeError::WrongFieldType));
    let compound = compound_of(vec![("action", text("change_page")), ("page", text("12"))]);
    assert_eq!(ClickEvent::from_compound(&compound), Err(DecodeError::WrongFieldType));
    let compound = compound_of(vec![("action", text("change_page")), ("page", Tag::Other)]);
    assert_eq!(ClickEvent::from_compound(&compound), Err(DecodeError::WrongFieldType));
}

#[test]
fn binary_decoder_does_not_read_another_tag_as_a_string() {
    let compound = compound_of(vec![("action", text("open_url")), ("value", Tag::Int(3))]);
    assert_eq!(ClickEvent::from_compound(&compound), Err(DecodeError::MissingField));
    let compound = compound_of(vec![("action", text("custom")), ("id", Tag::Other)]);
    assert_eq!(ClickEvent::from_compound(&compound), Err(DecodeError::MissingField));
}

#[test]
fn binary_clipboard_has_no_legacy_key() {
    for other in ["url", "path", "command", "page", "id", "text"] {
        let compound = compound_of(vec![("action", text("copy_to_clipboard")), (other, text("v"))]);
        assert_eq!(ClickEvent::from_compound(&compound), Err(DecodeError::MissingField));
    }
}

#[test]
fn binary_custom_has_no_legacy_key_and_drops_other_tags() {
    let compound = compound_of(vec![("action", text("custom")), ("value", text("v"))]);
    assert_eq!(ClickEvent::from_compound(&compound), Err(DecodeError::MissingField));
    let compound = compound_of(vec![
        ("action", text("custom")),
        ("payload", Tag::Other),
        ("id", text("my:id")),
        ("extra", Tag::Int(9)),
    ]);
    let event = ClickEvent::from_compound(&compound).unwrap();
    assert_eq!(event, ClickEvent::Custom { id: "my:id".to_string(), payload: () });
    assert_eq!(
        event.to_compound().entries,
        vec![entry("action", text("custom")), entry("id", text("my:id"))]
    );
}

#[test]
fn binary_show_dialog_ignores_every_other_tag() {
    let compound = compound_of(vec![("value", Tag::Int(1)), ("action", text("show_dialog"))]);
    assert_eq!(ClickEvent::from_compound(&compound), Ok(ClickEvent::ShowDialog));
}

#[test]
fn binary_decoder_reads_the_first_tag_of_a_name() {
    let compound = compound_of(vec![
        ("action", text("run_command")),
        ("action", text("open_url")),
        ("value", text("first")),
        ("value", text("second")),
    ]);
    assert_eq!(
        ClickEvent::from_compound(&compound),
        Ok(ClickEvent::RunCommand { command: "first".to_string() })
    );
    let compound = compound_of(vec![
        ("action", text("change_page")),
        ("value", text("x")),
        ("value", Tag::Int(4)),
    ]);
    assert_eq!(ClickEvent::from_compound(&compound), Err(DecodeError::WrongFieldType));
}

#[test]
fn binary_page_numbers_span_the_32_bit_range() {
    for page in [i32::MIN, -1, 0, 1, i32::MAX] {
        let compound = ClickEvent::ChangePage { page }.to_compound();
        assert_eq!(compound.get("value"), Some(&Tag::Int(page)));
        assert_eq!(ClickEvent::from_compound(&compound), Ok(ClickEvent::ChangePage { page }));
    }
}

#[test]
fn binary_strings_pass_through_unchanged() {
    for payload in ["", " ", "open_url", "value", "h\u{e9}llo \u{4e16}\u{754c} \u{1f600}", "a\0b"] {
        let event = ClickEvent::CopyToClipboard { value: payload.to_string() };
        let compound = event.clone().to_compound();
        assert_eq!(compound.get("value"), Some(&text(payload)));
        assert_eq!(ClickEvent::from_compound(&compound), Ok(event));
    }
}

#[test]
fn compound_lookups_find_the_first_tag() {
    let compound = compound_of(vec![("a", Tag::Int(1)), ("b", text("x")), ("a", Tag::Int(2))]);
    assert_eq!(compound.get("a"), Some(&Tag::Int(1)));
    assert_eq!(compound.get("b"), Some(&text("x")));
    assert_eq!(compound.get("c"), None);
    assert_eq!(compound.get(""), None);
    assert!(compound.contains("a"));
    assert!(compound.contains("b"));
    assert!(!compound.contains("ab"));
    assert_eq!(compound.entries.len(), 3);
    assert_eq!(Compound::new().entries, vec![]);
}
