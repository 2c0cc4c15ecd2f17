//! The binary codec: a click event as a compound of named, typed tags.
//!
//! A compound here is what a reader of click events sees of a binary tag
//! tree: its fields in their order, each a string, a 32-bit integer, or a
//! tag of some other type, whose content no click event needs.

use vstd::prelude::*;
use crate::action::Action;
use crate::alias::{field_keys, keys_of, resolve_int, resolve_string, resolved, FieldKeys, Key};
use crate::fields::{find_first, first_match, lemma_first_match_push, named, FieldSource};
use crate::click_event::{outcome, ClickEvent, ClickEventView, DecodeError};

verus! {

/// One tag of a compound.
#[derive(Debug, PartialEq)]
pub enum Tag {
    String(String),
    Int(i32),
    /// A tag of any other type: a byte, a list, a nested compound, ...
    Other,
}

/// A tag as a mathematical value.
pub enum TagView {
    String(Seq<char>),
    Int(i32),
    Other,
}

impl View for Tag {
    type V = TagView;

    open spec fn view(&self) -> TagView {
        match self {
            Tag::String(text) => TagView::String(text@),
            Tag::Int(number) => TagView::Int(*number),
            Tag::Other => TagView::Other,
        }
    }
}

/// A list of named tags, in the order in which they were inserted. A name
/// may occur more than once; a lookup finds its first tag.
#[derive(Debug, PartialEq)]
pub struct Compound {
    pub entries: Vec<(String, Tag)>,
}

impl View for Compound {
    type V = Seq<(Seq<char>, TagView)>;

    open spec fn view(&self) -> Seq<(Seq<char>, TagView)> {
        named(self.entries@)
    }
}

/// The string that the first tag named `key` holds; `None` where there is
/// no such tag or it is no string.
pub open spec fn string_leaf(entries: Seq<(Seq<char>, TagView)>, key: Seq<char>) -> Option<
    Seq<char>,
> {
    match first_match(entries, key) {
        Some(TagView::String(text)) => Some(text),
        _ => None,
    }
}

/// The integer that the first tag named `key` holds; `None` where there is
/// no such tag or it is no integer.
pub open spec fn int_leaf(entries: Seq<(Seq<char>, TagView)>, key: Seq<char>) -> Option<i32> {
    match first_match(entries, key) {
        Some(TagView::Int(number)) => Some(number),
        _ => None,
    }
}

impl Compound {
    /// The empty compound: it has no field of any name.
    pub fn new() -> (compound: Compound)
        ensures
            compound@ == Seq::<(Seq<char>, TagView)>::empty(),
            forall|key: Seq<char>| #[trigger] first_match(compound@, key) is None,
    {
        let compound = Compound { entries: Vec::new() };
        assert(compound@ =~= Seq::<(Seq<char>, TagView)>::empty());
        compound
    }

    /// Appends a tag under `name`; tags already there stay, also those of
    /// the same name, and a lookup of `name` still finds the earliest.
    pub fn insert(&mut self, name: &str, tag: Tag)
        ensures
            final(self)@ == old(self)@.push((name@, tag@)),
            forall|key: Seq<char>| #[trigger]
                first_match(final(self)@, key) == (match first_match(old(self)@, key) {
                    Some(earlier) => Some(earlier),
                    None => if name@ == key {
                        Some(tag@)
                    } else {
                        None
                    },
                }),
    {
        self.entries.push((name.to_owned(), tag));
        assert(self@ =~= old(self)@.push((name@, tag@)));
        assert forall|key: Seq<char>| #[trigger]
            first_match(self@, key) == (match first_match(old(self)@, key) {
                Some(earlier) => Some(earlier),
                None => if name@ == key {
                    Some(tag@)
                } else {
                    None
                },
            }) by {
            lemma_first_match_push(old(self)@, name@, tag@, key);
        }
    }

    /// The first tag named `name`.
    pub fn get(&self, name: &str) -> (found: Option<&Tag>)
        ensures
            match found {
                Some(tag) => first_match(self@, name@) == Some(tag@),
                None => first_match(self@, name@) is None,
            },
    {
        match find_first(&self.entries, name) {
            Some(i) => Some(&self.entries[i].1),
            None => None,
        }
    }

    /// Whether there is a tag named `name`, of whatever type.
    pub fn contains(&self, name: &str) -> (present: bool)
        ensures
            present == first_match(self@, name@) is Some,
    {
        find_first(&self.entries, name).is_some()
    }
}

impl FieldSource for Compound {
    open spec fn string_at(&self, key: Seq<char>) -> Option<Seq<char>> {
        string_leaf(self@, key)
    }

    open spec fn int_at(&self, key: Seq<char>) -> Option<i32> {
        int_leaf(self@, key)
    }

    fn read_string(&self, key: &str) -> (found: Option<&str>) {
        match self.get(key) {
            Some(Tag::String(text)) => Some(text.as_str()),
            _ => None,
        }
    }

    fn read_int(&self, key: &str) -> (found: Option<i32>) {
        match self.get(key) {
            Some(Tag::Int(number)) => Some(*number),
            _ => None,
        }
    }
}

/// The tag in which an event travels beside its `action`; `None` for the
/// event that carries nothing. The payload slot of `custom` is not written.
pub open spec fn payload_tag(event: ClickEventView) -> Option<TagView> {
    match event {
        ClickEventView::OpenUrl { url } => Some(TagView::String(url)),
        ClickEventView::OpenFile { path } => Some(TagView::String(path)),
        ClickEventView::RunCommand { command } => Some(TagView::String(command)),
        ClickEventView::SuggestCommand { command } => Some(TagView::String(command)),
        ClickEventView::ShowDialog => None,
        ClickEventView::ChangePage { page } => Some(TagView::Int(page)),
        ClickEventView::CopyToClipboard { value } => Some(TagView::String(value)),
        ClickEventView::Custom { id } => Some(TagView::String(id)),
    }
}

/// The compound that an event is written as: the `action` tag with the
/// name of its kind, then the payload under the unified key of that kind.
/// A legacy key is never written.
pub open spec fn encoded(event: ClickEventView) -> Seq<(Seq<char>, TagView)> {
    let head = seq![(Key::Action.text(), TagView::String(event.action().tag()))];
    match (keys_of(event.action()), payload_tag(event)) {
        (Some(keys), Some(tag)) => head.push((keys.primary.text(), tag)),
        _ => head,
    }
}

/// Whether a compound has a tag, of whatever type, under one of `keys`.
pub open spec fn holds_any(entries: Seq<(Seq<char>, TagView)>, keys: FieldKeys) -> bool {
    ||| first_match(entries, keys.primary.text()) is Some
    ||| keys.alias matches Some(alias) && first_match(entries, alias.text()) is Some
}

/// The string payload of an event of kind `action`, as a compound holds it.
pub open spec fn string_payload(
    entries: Seq<(Seq<char>, TagView)>,
    action: Action,
) -> Result<Seq<char>, DecodeError> {
    match keys_of(action) {
        Some(keys) => resolved(|key: Seq<char>| string_leaf(entries, key), keys),
        None => Err(DecodeError::MissingField),
    }
}

/// The integer payload of an event of kind `action`, as a compound holds
/// it. A tag of another type under one of the keys does not count as the
/// payload; where that leaves no payload, the error says that a tag of the
/// wrong type was there.
pub open spec fn int_payload(entries: Seq<(Seq<char>, TagView)>, action: Action) -> Result<
    i32,
    DecodeError,
> {
    match keys_of(action) {
        Some(keys) => match resolved(|key: Seq<char>| int_leaf(entries, key), keys) {
            Ok(number) => Ok(number),
            Err(_) => if holds_any(entries, keys) {
                Err(DecodeError::WrongFieldType)
            } else {
                Err(DecodeError::MissingField)
            },
        },
        None => Err(DecodeError::MissingField),
    }
}

/// The event of kind `action` that a compound holds.
pub open spec fn decoded_as(action: Action, entries: Seq<(Seq<char>, TagView)>) -> Result<
    ClickEventView,
    DecodeError,
> {
    match action {
        Action::OpenUrl => match string_payload(entries, action) {
            Ok(url) => Ok(ClickEventView::OpenUrl { url }),
            Err(error) => Err(error),
        },
        Action::OpenFile => match string_payload(entries, action) {
            Ok(path) => Ok(ClickEventView::OpenFile { path }),
            Err(error) => Err(error),
        },
        Action::RunCommand => match string_payload(entries, action) {
            Ok(command) => Ok(ClickEventView::RunCommand { command }),
            Err(error) => Err(error),
        },
        Action::SuggestCommand => match string_payload(entries, action) {
            Ok(command) => Ok(ClickEventView::SuggestCommand { command }),
            Err(error) => Err(error),
        },
        Action::ShowDialog => Ok(ClickEventView::ShowDialog),
        Action::ChangePage => match int_payload(entries, action) {
            Ok(page) => Ok(ClickEventView::ChangePage { page }),
            Err(error) => Err(error),
        },
        Action::CopyToClipboard => match string_payload(entries, action) {
            Ok(value) => Ok(ClickEventView::CopyToClipboard { value }),
            Err(error) => Err(error),
        },
        Action::Custom => match string_payload(entries, action) {
            Ok(id) => Ok(ClickEventView::Custom { id }),
            Err(error) => Err(error),
        },
    }
}

/// The event that a compound holds: its `action` tag names the kind, and
/// the payload is read under the keys of that kind. Tags that the kind
/// does not ask for are passed over.
pub open spec fn decoded(entries: Seq<(Seq<char>, TagView)>) -> Result<
    ClickEventView,
    DecodeError,
> {
    match string_leaf(entries, Key::Action.text()) {
        None => Err(DecodeError::MissingField),
        Some(name) => match Action::from_tag(name) {
            None => Err(DecodeError::UnrecognizedAction),
            Some(action) => decoded_as(action, entries),
        },
    }
}

/// Reads the string payload of an event of kind `action`.
fn read_string_payload(compound: &Compound, action: Action) -> (payload: Result<
    String,
    DecodeError,
>)
    ensures
        match payload {
            Ok(text) => string_payload(compound@, action) == Ok::<Seq<char>, DecodeError>(text@),
            Err(error) => string_payload(compound@, action) == Err::<Seq<char>, DecodeError>(
                error,
            ),
        },
{
    match field_keys(action) {
        Some(keys) => match resolve_string(compound, keys) {
            Ok(text) => Ok(text.to_owned()),
            Err(error) => Err(error),
        },
        None => Err(DecodeError::MissingField),
    }
}

/// Whether the compound has a tag, of whatever type, under one of `keys`.
fn has_any(compound: &Compound, keys: FieldKeys) -> (present: bool)
    ensures
        present == holds_any(compound@, keys),
{
    if compound.contains(keys.primary.name()) {
        true
    } else {
        match keys.alias {
            Some(alias) => compound.contains(alias.name()),
            None => false,
        }
    }
}

/// Reads the integer payload of an event of kind `action`.
fn read_int_payload(compound: &Compound, action: Action) -> (payload: Result<i32, DecodeError>)
    ensures
        payload == int_payload(compound@, action),
{
    match field_keys(action) {
        Some(keys) => match resolve_int(compound, keys) {
            Ok(number) => Ok(number),
            Err(_) => if has_any(compound, keys) {
                Err(DecodeError::WrongFieldType)
            } else {
                Err(DecodeError::MissingField)
            },
        },
        None => Err(DecodeError::MissingField),
    }
}

impl ClickEvent {
    /// The tag in which this event travels beside its `action`.
    fn into_payload_tag(self) -> (tag: Option<Tag>)
        ensures
            match tag {
                Some(tag) => payload_tag(self@) == Some(tag@),
                None => payload_tag(self@) is None,
            },
    {
        match self {
            ClickEvent::OpenUrl { url } => Some(Tag::String(url)),
            ClickEvent::OpenFile { path } => Some(Tag::String(path)),
            ClickEvent::RunCommand { command } => Some(Tag::String(command)),
            ClickEvent::SuggestCommand { command } => Some(Tag::String(command)),
            ClickEvent::ShowDialog => None,
            ClickEvent::ChangePage { page } => Some(Tag::Int(page)),
            ClickEvent::CopyToClipboard { value } => Some(Tag::String(value)),
            ClickEvent::Custom { id, .. } => Some(Tag::String(id)),
        }
    }

    /// Writes this click event as a compound: the `action` tag first, then
    /// the payload under its unified key. Writing never fails.
    pub fn to_compound(self) -> (compound: Compound)
        ensures
            compound@ == encoded(self@),
    {
        let action = self.action();
        let mut compound = Compound::new();
        compound.insert(Key::Action.name(), Tag::String(action.name().to_owned()));
        match (field_keys(action), self.into_payload_tag()) {
            (Some(keys), Some(tag)) => {
                compound.insert(keys.primary.name(), tag);
            },
            _ => {},
        }
        compound
    }

    /// Reads a click event from a compound.
    ///
    /// The `action` tag must be a string that names one of the eight kinds.
    /// The payload is looked for under the unified key, then under the
    /// legacy key of the kind; a tag of another type than the payload's
    /// counts as absent. Tags that the kind does not ask for are ignored:
    /// what a `custom` compound holds beside its `id` is dropped.
    pub fn from_compound(compound: &Compound) -> (result: Result<ClickEvent, DecodeError>)
        ensures
            outcome(result) == decoded(compound@),
    {
        let name = match compound.read_string(Key::Action.name()) {
            Some(name) => name,
            None => { return Err(DecodeError::MissingField); },
        };
        let action = match Action::parse(name) {
            Some(action) => action,
            None => { return Err(DecodeError::UnrecognizedAction); },
        };
        match action {
            Action::OpenUrl => match read_string_payload(compound, action) {
                Ok(url) => Ok(ClickEvent::OpenUrl { url }),
                Err(error) => Err(error),
            },
            Action::OpenFile => match read_string_payload(compound, action) {
                Ok(path) => Ok(ClickEvent::OpenFile { path }),
                Err(error) => Err(error),
            },
            Action::RunCommand => match read_string_payload(compound, action) {
                Ok(command) => Ok(ClickEvent::RunCommand { command }),
                Err(error) => Err(error),
            },
            Action::SuggestCommand => match read_string_payload(compound, action) {
                Ok(command) => Ok(ClickEvent::SuggestCommand { command }),
                Err(error) => Err(error),
            },
            Action::ShowDialog => Ok(ClickEvent::ShowDialog),
            Action::ChangePage => match read_int_payload(compound, action) {
                Ok(page) => Ok(ClickEvent::ChangePage { page }),
                Err(error) => Err(error),
            },
            Action::CopyToClipboard => match read_string_payload(compound, action) {
                Ok(value) => Ok(ClickEvent::CopyToClipboard { value }),
                Err(error) => Err(error),
            },
            Action::Custom => match read_string_payload(compound, action) {
                Ok(id) => Ok(ClickEvent::Custom { id, payload: () }),
                Err(error) => Err(error),
            },
        }
    }
}

/// Reading what was written gives the event back, for every event.
pub proof fn lemma_round_trip(event: ClickEventView)
    ensures
        decoded(encoded(event)) == Ok::<ClickEventView, DecodeError>(event),
{
    let action = event.action();
    let head = seq![(Key::Action.text(), TagView::String(action.tag()))];
    Action::lemma_tag_names(action, action.tag());
    Key::lemma_names_distinct(Key::Action, Key::Value);
    Key::lemma_names_distinct(Key::Action, Key::Id);
    assert(head =~= Seq::<(Seq<char>, TagView)>::empty().push(
        (Key::Action.text(), TagView::String(action.tag())),
    ));
    assert forall|key: Seq<char>| #[trigger]
        first_match(head, key) == (if key == Key::Action.text() {
            Some(TagView::String(action.tag()))
        } else {
            None
        }) by {
        lemma_first_match_push(
            Seq::<(Seq<char>, TagView)>::empty(),
            Key::Action.text(),
            TagView::String(action.tag()),
            key,
        );
    }
    match (keys_of(action), payload_tag(event)) {
        (Some(keys), Some(value)) => {
            lemma_first_match_push(head, keys.primary.text(), value, Key::Action.text());
            lemma_first_match_push(head, keys.primary.text(), value, keys.primary.text());
        },
        _ => {},
    }
}

/// A compound whose `action` names none of the eight kinds is rejected
/// as such, whatever else it holds.
pub proof fn lemma_unknown_action_rejected(entries: Seq<(Seq<char>, TagView)>, name: Seq<char>)
    requires
        string_leaf(entries, Key::Action.text()) == Some(name),
        forall|action: Action| name != #[trigger] action.tag(),
    ensures
        decoded(entries) == Err::<ClickEventView, DecodeError>(DecodeError::UnrecognizedAction),
{
    if let Some(action) = Action::from_tag(name) {
        Action::lemma_tag_names(action, name);
    }
}

/// A compound that names a kind with a payload but has nothing under the
/// keys of that payload is rejected as missing a field.
pub proof fn lemma_missing_field_rejected(
    entries: Seq<(Seq<char>, TagView)>,
    action: Action,
    keys: FieldKeys,
)
    requires
        string_leaf(entries, Key::Action.text()) == Some(action.tag()),
        keys_of(action) == Some(keys),
        first_match(entries, keys.primary.text()) is None,
        keys.alias matches Some(alias) ==> first_match(entries, alias.text()) is None,
    ensures
        decoded(entries) == Err::<ClickEventView, DecodeError>(DecodeError::MissingField),
{
    Action::lemma_tag_names(action, action.tag());
}

/// Two compounds of one kind decode alike where the one holds under the
/// legacy key, and the other under the unified key, the same tag, and
/// neither holds anything under the other key.
pub proof fn lemma_alias_equivalence(
    legacy: Seq<(Seq<char>, TagView)>,
    unified: Seq<(Seq<char>, TagView)>,
    action: Action,
    keys: FieldKeys,
    alias: Key,
)
    requires
        string_leaf(legacy, Key::Action.text()) == Some(action.tag()),
        string_leaf(unified, Key::Action.text()) == Some(action.tag()),
        keys_of(action) == Some(keys),
        keys.alias == Some(alias),
        first_match(legacy, keys.primary.text()) is None,
        first_match(unified, alias.text()) is None,
        first_match(unified, keys.primary.text()) == first_match(legacy, alias.text()),
    ensures
        decoded(legacy) == decoded(unified),
{
    Action::lemma_tag_names(action, action.tag());
}

/// Where a compound holds the payload of an event under the unified key,
/// it decodes to that event, whatever else it holds: a tag under the
/// legacy key does not count, and tags of other names are dropped.
pub proof fn lemma_primary_wins(
    entries: Seq<(Seq<char>, TagView)>,
    event: ClickEventView,
    keys: FieldKeys,
)
    requires
        string_leaf(entries, Key::Action.text()) == Some(event.action().tag()),
        keys_of(event.action()) == Some(keys),
        first_match(entries, keys.primary.text()) == payload_tag(event),
    ensures
        decoded(entries) == Ok::<ClickEventView, DecodeError>(event),
{
    Action::lemma_tag_names(event.action(), event.action().tag());
}

/// The clipboard text has no legacy key: a `copy_to_clipboard` compound
/// without a string under `value` is rejected as missing a field,
/// whatever it holds under other keys.
pub proof fn lemma_clipboard_has_no_alias(entries: Seq<(Seq<char>, TagView)>)
    requires
        string_leaf(entries, Key::Action.text()) == Some(Action::CopyToClipboard.tag()),
        string_leaf(entries, Key::Value.text()) is None,
    ensures
        decoded(entries) == Err::<ClickEventView, DecodeError>(DecodeError::MissingField),
{
    Action::lemma_tag_names(Action::CopyToClipboard, Action::CopyToClipboard.tag());
}

/// A `change_page` compound with no integer tag under `value` or `page`
/// is rejected, and no other tag is read as a page number: what stands
/// under those keys as a string, or as any other tag, makes the error one
/// of a wrong type; where nothing stands there, a field is missing.
pub proof fn lemma_page_of_wrong_type_rejected(entries: Seq<(Seq<char>, TagView)>)
    requires
        string_leaf(entries, Key::Action.text()) == Some(Action::ChangePage.tag()),
        int_leaf(entries, Key::Value.text()) is None,
        int_leaf(entries, Key::Page.text()) is None,
    ensures
        decoded(entries) == Err::<ClickEventView, DecodeError>(
            if first_match(entries, Key::Value.text()) is Some || first_match(
                entries,
                Key::Page.text(),
            ) is Some {
                DecodeError::WrongFieldType
            } else {
                DecodeError::MissingField
            },
        ),
{
    Action::lemma_tag_names(Action::ChangePage, Action::ChangePage.tag());
}

} // verus!
