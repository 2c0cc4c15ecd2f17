//! The text codec: a click event as a tagged container of named values.
//!
//! A text container here is what a reader of click events sees of a
//! document in a human-editable format: its fields in their order, each a
//! string, an integer, or a value of some other type, whose content no
//! click event needs.

use vstd::prelude::*;
use crate::action::Action;
use crate::alias::{field_keys, keys_of, resolve_int, resolve_string, resolved, FieldKeys, Key};
use crate::fields::{find_first, first_match, lemma_first_match_push, named, FieldSource};
use crate::click_event::{outcome, ClickEvent, ClickEventView, DecodeError};

verus! {

/// One value of a text container.
#[derive(Debug, PartialEq)]
pub enum TextValue {
    String(String),
    Integer(i64),
    /// A value of any other type: a boolean, a list, a nested container, ...
    Other,
}

/// A value of a text container as a mathematical value.
pub enum TextValueView {
    String(Seq<char>),
    Integer(i64),
    Other,
}

impl View for TextValue {
    type V = TextValueView;

    open spec fn view(&self) -> TextValueView {
        match self {
            TextValue::String(text) => TextValueView::String(text@),
            TextValue::Integer(number) => TextValueView::Integer(*number),
            TextValue::Other => TextValueView::Other,
        }
    }
}

/// A list of named values, in the order in which they were inserted. A
/// name may occur more than once; a lookup finds its first value.
#[derive(Debug, PartialEq)]
pub struct TextMap {
    pub entries: Vec<(String, TextValue)>,
}

impl View for TextMap {
    type V = Seq<(Seq<char>, TextValueView)>;

    open spec fn view(&self) -> Seq<(Seq<char>, TextValueView)> {
        named(self.entries@)
    }
}

/// The string that the first value named `key` is; `None` where there is
/// no such value or it is no string.
pub open spec fn string_value(entries: Seq<(Seq<char>, TextValueView)>, key: Seq<char>) -> Option<
    Seq<char>,
> {
    match first_match(entries, key) {
        Some(TextValueView::String(text)) => Some(text),
        _ => None,
    }
}

/// The 32-bit integer that the first value named `key` is; `None` where
/// there is no such value, or it is no integer, or one that does not fit
/// 32 bits.
pub open spec fn int_value(entries: Seq<(Seq<char>, TextValueView)>, key: Seq<char>) -> Option<
    i32,
> {
    match first_match(entries, key) {
        Some(TextValueView::Integer(number)) => if i32::MIN <= number <= i32::MAX {
            Some(number as i32)
        } else {
            None
        },
        _ => None,
    }
}

impl TextMap {
    /// The empty container: it has no field of any name.
    pub fn new() -> (map: TextMap)
        ensures
            map@ == Seq::<(Seq<char>, TextValueView)>::empty(),
            forall|key: Seq<char>| #[trigger] first_match(map@, key) is None,
    {
        let map = TextMap { entries: Vec::new() };
        assert(map@ =~= Seq::<(Seq<char>, TextValueView)>::empty());
        map
    }

    /// Appends a value under `name`; values already there stay, also those of
    /// the same name, and a lookup of `name` still finds the earliest.
    pub fn insert(&mut self, name: &str, value: TextValue)
        ensures
            final(self)@ == old(self)@.push((name@, value@)),
            forall|key: Seq<char>| #[trigger]
                first_match(final(self)@, key) == (match first_match(old(self)@, key) {
                    Some(earlier) => Some(earlier),
                    None => if name@ == key {
                        Some(value@)
                    } else {
                        None
                    },
                }),
    {
        self.entries.push((name.to_owned(), value));
        assert(self@ =~= old(self)@.push((name@, value@)));
        assert forall|key: Seq<char>| #[trigger]
            first_match(self@, key) == (match first_match(old(self)@, key) {
                Some(earlier) => Some(earlier),
                None => if name@ == key {
                    Some(value@)
                } else {
                    None
                },
            }) by {
            lemma_first_match_push(old(self)@, name@, value@, key);
        }
    }

    /// The first value named `name`.
    pub fn get(&self, name: &str) -> (found: Option<&TextValue>)
        ensures
            match found {
                Some(value) => first_match(self@, name@) == Some(value@),
                None => first_match(self@, name@) is None,
            },
    {
        match find_first(&self.entries, name) {
            Some(i) => Some(&self.entries[i].1),
            None => None,
        }
    }
}

impl FieldSource for TextMap {
    open spec fn string_at(&self, key: Seq<char>) -> Option<Seq<char>> {
        string_value(self@, key)
    }

    open spec fn int_at(&self, key: Seq<char>) -> Option<i32> {
        int_value(self@, key)
    }

    fn read_string(&self, key: &str) -> (found: Option<&str>) {
        match self.get(key) {
            Some(TextValue::String(text)) => Some(text.as_str()),
            _ => None,
        }
    }

    fn read_int(&self, key: &str) -> (found: Option<i32>) {
        match self.get(key) {
            Some(TextValue::Integer(number)) => {
                if -0x8000_0000 <= *number && *number <= 0x7fff_ffff {
                    Some(*number as i32)
                } else {
                    None
                }
            },
            _ => None,
        }
    }
}

/// The value in which an event travels beside its `action`; `None` for
/// the event that carries nothing. The payload slot of `custom` is not
/// written.
pub open spec fn payload_value(event: ClickEventView) -> Option<TextValueView> {
    match event {
        ClickEventView::OpenUrl { url } => Some(TextValueView::String(url)),
        ClickEventView::OpenFile { path } => Some(TextValueView::String(path)),
        ClickEventView::RunCommand { command } => Some(TextValueView::String(command)),
        ClickEventView::SuggestCommand { command } => Some(TextValueView::String(command)),
        ClickEventView::ShowDialog => None,
        ClickEventView::ChangePage { page } => Some(TextValueView::Integer(page as i64)),
        ClickEventView::CopyToClipboard { value } => Some(TextValueView::String(value)),
        ClickEventView::Custom { id } => Some(TextValueView::String(id)),
    }
}

/// The container that an event is written as: the `action` field with the
/// name of its kind, then the payload under the unified key of that kind.
/// A legacy key is never written.
pub open spec fn encoded(event: ClickEventView) -> Seq<(Seq<char>, TextValueView)> {
    let head = seq![(Key::Action.text(), TextValueView::String(event.action().tag()))];
    match (keys_of(event.action()), payload_value(event)) {
        (Some(keys), Some(value)) => head.push((keys.primary.text(), value)),
        _ => head,
    }
}

/// The string payload of an event of kind `action`, as a container holds
/// it.
pub open spec fn string_payload(
    entries: Seq<(Seq<char>, TextValueView)>,
    action: Action,
) -> Result<Seq<char>, DecodeError> {
    match keys_of(action) {
        Some(keys) => resolved(|key: Seq<char>| string_value(entries, key), keys),
        None => Err(DecodeError::MissingField),
    }
}

/// The integer payload of an event of kind `action`, as a container holds
/// it.
pub open spec fn int_payload(entries: Seq<(Seq<char>, TextValueView)>, action: Action) -> Result<
    i32,
    DecodeError,
> {
    match keys_of(action) {
        Some(keys) => resolved(|key: Seq<char>| int_value(entries, key), keys),
        None => Err(DecodeError::MissingField),
    }
}

/// The event of kind `action` that a container holds.
pub open spec fn decoded_as(action: Action, entries: Seq<(Seq<char>, TextValueView)>) -> Result<
    ClickEventView,
    DecodeError,
> {
    match action {
        Action::OpenUrl => match string_payload(entries, action) {
            Ok(url) => Ok(ClickEventView::OpenUrl { url }),
            Err(error) => Err(error),
        },
        Action::OpenFile => match string_payload(entries, action) {
            Ok(path) => Ok(ClickEventView::OpenFile { path }),
            Err(error) => Err(error),
        },
        Action::RunCommand => match string_payload(entries, action) {
            Ok(command) => Ok(ClickEventView::RunCommand { command }),
            Err(error) => Err(error),
        },
        Action::SuggestCommand => match string_payload(entries, action) {
            Ok(command) => Ok(ClickEventView::SuggestCommand { command }),
            Err(error) => Err(error),
        },
        Action::ShowDialog => Ok(ClickEventView::ShowDialog),
        Action::ChangePage => match int_payload(entries, action) {
            Ok(page) => Ok(ClickEventView::ChangePage { page }),
            Err(error) => Err(error),
        },
        Action::CopyToClipboard => match string_payload(entries, action) {
            Ok(value) => Ok(ClickEventView::CopyToClipboard { value }),
            Err(error) => Err(error),
        },
        Action::Custom => match string_payload(entries, action) {
            Ok(id) => Ok(ClickEventView::Custom { id }),
            Err(error) => Err(error),
        },
    }
}

/// The event that a container holds: its `action` field names the kind,
/// and the payload is read under the keys of that kind. Fields that the
/// kind does not ask for are passed over.
pub open spec fn decoded(entries: Seq<(Seq<char>, TextValueView)>) -> Result<
    ClickEventView,
    DecodeError,
> {
    match string_value(entries, Key::Action.text()) {
        None => Err(DecodeError::MissingField),
        Some(name) => match Action::from_tag(name) {
            None => Err(DecodeError::UnrecognizedAction),
            Some(action) => decoded_as(action, entries),
        },
    }
}

/// Reads the string payload of an event of kind `action`.
fn read_string_payload(map: &TextMap, action: Action) -> (payload: Result<String, DecodeError>)
    ensures
        match payload {
            Ok(text) => string_payload(map@, action) == Ok::<Seq<char>, DecodeError>(text@),
            Err(error) => string_payload(map@, action) == Err::<Seq<char>, DecodeError>(error),
        },
{
    match field_keys(action) {
        Some(keys) => match resolve_string(map, keys) {
            Ok(text) => Ok(text.to_owned()),
            Err(error) => Err(error),
        },
        None => Err(DecodeError::MissingField),
    }
}

/// Reads the integer payload of an event of kind `action`.
fn read_int_payload(map: &TextMap, action: Action) -> (payload: Result<i32, DecodeError>)
    ensures
        payload == int_payload(map@, action),
{
    match field_keys(action) {
        Some(keys) => resolve_int(map, keys),
        None => Err(DecodeError::MissingField),
    }
}

impl ClickEvent {
    /// The value in which this event travels beside its `action`.
    fn payload_value(&self) -> (value: Option<TextValue>)
        ensures
            match value {
                Some(value) => payload_value(self@) == Some(value@),
                None => payload_value(self@) is None,
            },
    {
        match self {
            ClickEvent::OpenUrl { url } => Some(TextValue::String(url.clone())),
            ClickEvent::OpenFile { path } => Some(TextValue::String(path.clone())),
            ClickEvent::RunCommand { command } => Some(TextValue::String(command.clone())),
            ClickEvent::SuggestCommand { command } => Some(TextValue::String(command.clone())),
            ClickEvent::ShowDialog => None,
            ClickEvent::ChangePage { page } => Some(TextValue::Integer(*page as i64)),
            ClickEvent::CopyToClipboard { value } => Some(TextValue::String(value.clone())),
            ClickEvent::Custom { id, .. } => Some(TextValue::String(id.clone())),
        }
    }

    /// Writes this click event as a text container: the `action` field
    /// first, then the payload under its unified key. Writing never fails.
    pub fn encode_text(&self) -> (map: TextMap)
        ensures
            map@ == encoded(self@),
    {
        let action = self.action();
        let mut map = TextMap::new();
        map.insert(Key::Action.name(), TextValue::String(action.name().to_owned()));
        match (field_keys(action), self.payload_value()) {
            (Some(keys), Some(value)) => {
                map.insert(keys.primary.name(), value);
            },
            _ => {},
        }
        map
    }

    /// Reads a click event from a text container.
    ///
    /// The `action` field must be a string that names one of the eight
    /// kinds. The payload is looked for under the unified key, then under
    /// the legacy key of the kind; a value of another type than the
    /// payload's counts as absent, and so does an integer that does not
    /// fit 32 bits. Fields that the kind does not ask for are ignored.
    pub fn decode_text(map: &TextMap) -> (result: Result<ClickEvent, DecodeError>)
        ensures
            outcome(result) == decoded(map@),
    {
        let name = match map.read_string(Key::Action.name()) {
            Some(name) => name,
            None => { return Err(DecodeError::MissingField); },
        };
        let action = match Action::parse(name) {
            Some(action) => action,
            None => { return Err(DecodeError::UnrecognizedAction); },
        };
        match action {
            Action::OpenUrl => match read_string_payload(map, action) {
                Ok(url) => Ok(ClickEvent::OpenUrl { url }),
                Err(error) => Err(error),
            },
            Action::OpenFile => match read_string_payload(map, action) {
                Ok(path) => Ok(ClickEvent::OpenFile { path }),
                Err(error) => Err(error),
            },
            Action::RunCommand => match read_string_payload(map, action) {
                Ok(command) => Ok(ClickEvent::RunCommand { command }),
                Err(error) => Err(error),
            },
            Action::SuggestCommand => match read_string_payload(map, action) {
                Ok(command) => Ok(ClickEvent::SuggestCommand { command }),
                Err(error) => Err(error),
            },
            Action::ShowDialog => Ok(ClickEvent::ShowDialog),
            Action::ChangePage => match read_int_payload(map, action) {
                Ok(page) => Ok(ClickEvent::ChangePage { page }),
                Err(error) => Err(error),
            },
            Action::CopyToClipboard => match read_string_payload(map, action) {
                Ok(value) => Ok(ClickEvent::CopyToClipboard { value }),
                Err(error) => Err(error),
            },
            Action::Custom => match read_string_payload(map, action) {
                Ok(id) => Ok(ClickEvent::Custom { id, payload: () }),
                Err(error) => Err(error),
            },
        }
    }
}

/// Reading what was written gives the event back, for every event.
pub proof fn lemma_round_trip(event: ClickEventView)
    ensures
        decoded(encoded(event)) == Ok::<ClickEventView, DecodeError>(event),
{
    let action = event.action();
    let head = seq![(Key::Action.text(), TextValueView::String(action.tag()))];
    Action::lemma_tag_names(action, action.tag());
    Key::lemma_names_distinct(Key::Action, Key::Value);
    Key::lemma_names_distinct(Key::Action, Key::Id);
    assert(head =~= Seq::<(Seq<char>, TextValueView)>::empty().push(
        (Key::Action.text(), TextValueView::String(action.tag())),
    ));
    assert forall|key: Seq<char>| #[trigger]
        first_match(head, key) == (if key == Key::Action.text() {
            Some(TextValueView::String(action.tag()))
        } else {
            None
        }) by {
        lemma_first_match_push(
            Seq::<(Seq<char>, TextValueView)>::empty(),
            Key::Action.text(),
            TextValueView::String(action.tag()),
            key,
        );
    }
    match (keys_of(action), payload_value(event)) {
        (Some(keys), Some(value)) => {
            lemma_first_match_push(head, keys.primary.text(), value, Key::Action.text());
            lemma_first_match_push(head, keys.primary.text(), value, keys.primary.text());
        },
        _ => {},
    }
}

/// A container whose `action` names none of the eight kinds is rejected
/// as such, whatever else it holds.
pub proof fn lemma_unknown_action_rejected(entries: Seq<(Seq<char>, TextValueView)>, name: Seq<char>)
    requires
        string_value(entries, Key::Action.text()) == Some(name),
        forall|action: Action| name != #[trigger] action.tag(),
    ensures
        decoded(entries) == Err::<ClickEventView, DecodeError>(DecodeError::UnrecognizedAction),
{
    if let Some(action) = Action::from_tag(name) {
        Action::lemma_tag_names(action, name);
    }
}

/// A container that names a kind with a payload but has nothing under the
/// keys of that payload is rejected as missing a field.
pub proof fn lemma_missing_field_rejected(
    entries: Seq<(Seq<char>, TextValueView)>,
    action: Action,
    keys: FieldKeys,
)
    requires
        string_value(entries, Key::Action.text()) == Some(action.tag()),
        keys_of(action) == Some(keys),
        first_match(entries, keys.primary.text()) is None,
        keys.alias matches Some(alias) ==> first_match(entries, alias.text()) is None,
    ensures
        decoded(entries) == Err::<ClickEventView, DecodeError>(DecodeError::MissingField),
{
    Action::lemma_tag_names(action, action.tag());
}

/// Two containers of one kind decode alike where the one holds under the
/// legacy key, and the other under the unified key, the same payload, and
/// neither holds anything under the other key.
pub proof fn lemma_alias_equivalence(
    legacy: Seq<(Seq<char>, TextValueView)>,
    unified: Seq<(Seq<char>, TextValueView)>,
    action: Action,
    keys: FieldKeys,
    alias: Key,
)
    requires
        string_value(legacy, Key::Action.text()) == Some(action.tag()),
        string_value(unified, Key::Action.text()) == Some(action.tag()),
        keys_of(action) == Some(keys),
        keys.alias == Some(alias),
        first_match(legacy, keys.primary.text()) is None,
        first_match(unified, alias.text()) is None,
        first_match(unified, keys.primary.text()) == first_match(legacy, alias.text()),
    ensures
        decoded(legacy) == decoded(unified),
{
    Action::lemma_tag_names(action, action.tag());
}

/// Where a container holds the payload of an event under the unified key,
/// it decodes to that event, whatever it holds under the legacy key.
pub proof fn lemma_primary_wins(
    entries: Seq<(Seq<char>, TextValueView)>,
    event: ClickEventView,
    keys: FieldKeys,
)
    requires
        string_value(entries, Key::Action.text()) == Some(event.action().tag()),
        keys_of(event.action()) == Some(keys),
        first_match(entries, keys.primary.text()) == payload_value(event),
    ensures
        decoded(entries) == Ok::<ClickEventView, DecodeError>(event),
{
    Action::lemma_tag_names(event.action(), event.action().tag());
}

/// The clipboard text has no legacy key: a `copy_to_clipboard` container
/// without a string under `value` is rejected as missing a field,
/// whatever it holds under other keys.
pub proof fn lemma_clipboard_has_no_alias(entries: Seq<(Seq<char>, TextValueView)>)
    requires
        string_value(entries, Key::Action.text()) == Some(Action::CopyToClipboard.tag()),
        string_value(entries, Key::Value.text()) is None,
    ensures
        decoded(entries) == Err::<ClickEventView, DecodeError>(DecodeError::MissingField),
{
    Action::lemma_tag_names(Action::CopyToClipboard, Action::CopyToClipboard.tag());
}

} // verus!
