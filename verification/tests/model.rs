use azalea_chat::alias::{field_keys, resolve_int, resolve_string, FieldKeys, Key};
use azalea_chat::fields::{find_first, FieldSource};
use azalea_chat::nbt::{Compound, Tag};
use azalea_chat::strings::str_eq;
use azalea_chat::text::{TextMap, TextValue};
use azalea_chat::{Action, ClickEvent, DecodeError};

const ACTIONS: [(Action, &str); 8] = [
    (Action::OpenUrl, "open_url"),
    (Action::OpenFile, "open_file"),
    (Action::RunCommand, "run_command"),
    (Action::SuggestCommand, "suggest_command"),
    (Action::ShowDialog, "show_dialog"),
    (Action::ChangePage, "change_page"),
    (Action::CopyToClipboard, "copy_to_clipboard"),
    (Action::Custom, "custom"),
];

#[test]
fn action_names_are_the_snake_case_tags() {
    for (action, name) in ACTIONS {
        assert_eq!(action.name(), name);
        assert_eq!(Action::parse(name), Some(action));
    }
}

#[test]
fn action_parse_rejects_other_names() {
    for name in ["", "open_ur", "open_urls", "OpenUrl", "open url", "custom ", "value", "action"] {
        assert_eq!(Action::parse(name), None);
    }
}

#[test]
fn click_event_knows_its_action() {
    assert_eq!(ClickEvent::OpenUrl { url: String::new() }.action(), Action::OpenUrl);
    assert_eq!(ClickEvent::OpenFile { path: String::new() }.action(), Action::OpenFile);
    assert_eq!(ClickEvent::RunCommand { command: String::new() }.action(), Action::RunCommand);
    assert_eq!(
        ClickEvent::SuggestCommand { command: String::new() }.action(),
        Action::SuggestCommand
    );
    assert_eq!(ClickEvent::ShowDialog.action(), Action::ShowDialog);
    assert_eq!(ClickEvent::ChangePage { page: 0 }.action(), Action::ChangePage);
    assert_eq!(
        ClickEvent::CopyToClipboard { value: String::new() }.action(),
        Action::CopyToClipboard
    );
    assert_eq!(ClickEvent::Custom { id: String::new(), payload: () }.action(), Action::Custom);
}

#[test]
fn click_events_are_equal_by_variant_and_fields() {
    let a = ClickEvent::RunCommand { command: "x".to_string() };
    assert_eq!(a, ClickEvent::RunCommand { command: "x".to_string() });
    assert_ne!(a, ClickEvent::RunCommand { command: "y".to_string() });
    assert_ne!(a, ClickEvent::SuggestCommand { command: "x".to_string() });
    assert_ne!(ClickEvent::ChangePage { page: 1 }, ClickEvent::ChangePage { page: 2 });
    assert_eq!(ClickEvent::ShowDialog, ClickEvent::ShowDialog);
    assert_ne!(ClickEvent::ShowDialog, ClickEvent::ChangePage { page: 0 });
    assert_eq!(
        ClickEvent::Custom { id: "i".to_string(), payload: () },
        ClickEvent::Custom { id: "i".to_string(), payload: () }
    );
}

#[test]
fn click_event_clone_is_equal_to_its_source() {
    let events = vec![
        ClickEvent::OpenUrl { url: "u".to_string() },
        ClickEvent::OpenFile { path: "p".to_string() },
        ClickEvent::RunCommand { command: "r".to_string() },
        ClickEvent::SuggestCommand { command: "s".to_string() },
        ClickEvent::ShowDialog,
        ClickEvent::ChangePage { page: 5 },
        ClickEvent::CopyToClipboard { value: "v".to_string() },
        ClickEvent::Custom { id: "i".to_string(), payload: () },
    ];
    for event in events {
        assert_eq!(event.clone(), event);
    }
}

#[test]
fn key_names_are_as_written() {
    assert_eq!(Key::Action.name(), "action");
    assert_eq!(Key::Value.name(), "value");
    assert_eq!(Key::Url.name(), "url");
    assert_eq!(Key::Path.name(), "path");
    assert_eq!(Key::Command.name(), "command");
    assert_eq!(Key::Page.name(), "page");
    assert_eq!(Key::Id.name(), "id");
}

#[test]
fn key_table_pairs_each_action_with_its_keys() {
    let keys = |primary, alias| Some(FieldKeys { primary, alias });
    assert_eq!(field_keys(Action::OpenUrl), keys(Key::Value, Some(Key::Url)));
    assert_eq!(field_keys(Action::OpenFile), keys(Key::Value, Some(Key::Path)));
    assert_eq!(field_keys(Action::RunCommand), keys(Key::Value, Some(Key::Command)));
    assert_eq!(field_keys(Action::SuggestCommand), keys(Key::Value, Some(Key::Command)));
    assert_eq!(field_keys(Action::ShowDialog), None);
    assert_eq!(field_keys(Action::ChangePage), keys(Key::Value, Some(Key::Page)));
    assert_eq!(field_keys(Action::CopyToClipboard), keys(Key::Value, None));
    assert_eq!(field_keys(Action::Custom), keys(Key::Id, None));
}

#[test]
fn resolver_takes_the_primary_then_the_alias() {
    let keys = FieldKeys { primary: Key::Value, alias: Some(Key::Url) };
    let mut both = Compound::new();
    both.insert("url", Tag::String("legacy".to_string()));
    both.insert("value", Tag::String("unified".to_string()));
    assert_eq!(resolve_string(&both, keys), Ok("unified"));

    let mut legacy = Compound::new();
    legacy.insert("url", Tag::String("legacy".to_string()));
    assert_eq!(resolve_string(&legacy, keys), Ok("legacy"));

    assert_eq!(resolve_string(&Compound::new(), keys), Err(DecodeError::MissingField));

    let no_alias = FieldKeys { primary: Key::Value, alias: None };
    assert_eq!(resolve_string(&legacy, no_alias), Err(DecodeError::MissingField));
    assert_eq!(resolve_string(&both, no_alias), Ok("unified"));
}

#[test]
fn resolver_reads_integers_from_either_container() {
    let keys = FieldKeys { primary: Key::Value, alias: Some(Key::Page) };
    let mut compound = Compound::new();
    compound.insert("value", Tag::String("1".to_string()));
    compound.insert("page", Tag::Int(2));
    assert_eq!(resolve_int(&compound, keys), Ok(2));
    assert_eq!(resolve_string(&compound, keys), Ok("1"));

    let mut map = TextMap::new();
    map.insert("page", TextValue::Integer(7));
    assert_eq!(resolve_int(&map, keys), Ok(7));
    map.insert("value", TextValue::Integer(8));
    assert_eq!(resolve_int(&map, keys), Ok(8));
    assert_eq!(resolve_string(&map, keys), Err(DecodeError::MissingField));
    assert_eq!(resolve_int(&TextMap::new(), keys), Err(DecodeError::MissingField));
}

#[test]
fn typed_lookups_count_another_type_as_absent() {
    let mut compound = Compound::new();
    compound.insert("s", Tag::String("x".to_string()));
    compound.insert("n", Tag::Int(-1));
    compound.insert("o", Tag::Other);
    assert_eq!(compound.read_string("s"), Some("x"));
    assert_eq!(compound.read_string("n"), None);
    assert_eq!(compound.read_string("o"), None);
    assert_eq!(compound.read_string("missing"), None);
    assert_eq!(compound.read_int("n"), Some(-1));
    assert_eq!(compound.read_int("s"), None);
    assert_eq!(compound.read_int("o"), None);

    let mut map = TextMap::new();
    map.insert("s", TextValue::String("x".to_string()));
    map.insert("n", TextValue::Integer(2147483647));
    map.insert("big", TextValue::Integer(2147483648));
    map.insert("small", TextValue::Integer(-2147483649));
    map.insert("o", TextValue::Other);
    assert_eq!(map.read_string("s"), Some("x"));
    assert_eq!(map.read_string("n"), None);
    assert_eq!(map.read_int("n"), Some(i32::MAX));
    assert_eq!(map.read_int("big"), None);
    assert_eq!(map.read_int("small"), None);
    assert_eq!(map.read_int("s"), None);
    assert_eq!(map.read_int("o"), None);
}

#[test]
fn find_first_gives_the_earliest_index() {
    let entries = vec![
        ("a".to_string(), Tag::Int(1)),
        ("b".to_string(), Tag::Int(2)),
        ("a".to_string(), Tag::Int(3)),
        ("".to_string(), Tag::Int(4)),
    ];
    assert_eq!(find_first(&entries, "a"), Some(0));
    assert_eq!(find_first(&entries, "b"), Some(1));
    assert_eq!(find_first(&entries, ""), Some(3));
    assert_eq!(find_first(&entries, "c"), None);
    let none: Vec<(String, Tag)> = Vec::new();
    assert_eq!(find_first(&none, "a"), None);
}

#[test]
fn str_eq_compares_by_characters() {
    assert!(str_eq("", ""));
    assert!(str_eq("value", "value"));
    assert!(!str_eq("value", "valu"));
    assert!(!str_eq("valu", "value"));
    assert!(!str_eq("path", "page"));
    assert!(!str_eq("", "a"));
    assert!(str_eq("h\u{e9}", "h\u{e9}"));
    assert!(!str_eq("h\u{e9}", "he"));
    assert!(!str_eq("\u{e9}", "\u{e8}"));
}
