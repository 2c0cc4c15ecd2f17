//! The wire keys of the payload fields, and the rule by which a field is
//! found under its unified key or, failing that, under its legacy key.
//!
//! Older writers named the payload after the variant (`url`, `path`,
//! `command`, `page`); newer ones write it under `value`. Readers accept
//! both, and the unified key wins where both are there.

use vstd::prelude::*;
use crate::action::Action;
use crate::click_event::DecodeError;
use crate::fields::FieldSource;

verus! {

/// The field names that a click-event container may hold.
#[derive(Clone, Copy, Debug, PartialEq, Eq, Structural)]
pub enum Key {
    Action,
    Value,
    Url,
    Path,
    Command,
    Page,
    Id,
}

impl Key {
    /// The field name as it is written.
    pub open spec fn text(self) -> Seq<char> {
        match self {
            Key::Action => "action"@,
            Key::Value => "value"@,
            Key::Url => "url"@,
            Key::Path => "path"@,
            Key::Command => "command"@,
            Key::Page => "page"@,
            Key::Id => "id"@,
        }
    }

    /// The field name as it is written.
    pub fn name(self) -> (name: &'static str)
        ensures
            name@ == self.text(),
    {
        match self {
            Key::Action => "action",
            Key::Value => "value",
            Key::Url => "url",
            Key::Path => "path",
            Key::Command => "command",
            Key::Page => "page",
            Key::Id => "id",
        }
    }

    /// Two keys are written alike only if they are the same key.
    pub proof fn lemma_names_distinct(a: Key, b: Key)
        ensures
            a.text() == b.text() <==> a == b,
    {
        reveal_strlit("action");
        reveal_strlit("value");
        reveal_strlit("url");
        reveal_strlit("path");
        reveal_strlit("command");
        reveal_strlit("page");
        reveal_strlit("id");
        assert("action"@.len() == 6);
        assert("value"@.len() == 5);
        assert("url"@.len() == 3);
        assert("path"@.len() == 4 && "path"@[2] == 't');
        assert("command"@.len() == 7);
        assert("page"@.len() == 4 && "page"@[2] == 'g');
        assert("id"@.len() == 2);
    }
}

/// The keys under which one payload field is looked for.
#[derive(Clone, Copy, Debug, PartialEq, Eq, Structural)]
pub struct FieldKeys {
    /// The unified key: the one that is written, and that wins on reading.
    pub primary: Key,
    /// The legacy key, accepted on reading where the field once had one.
    pub alias: Option<Key>,
}

/// The keys of the payload field of each kind of event; `None` for the one
/// kind that carries no payload.
pub open spec fn keys_of(action: Action) -> Option<FieldKeys> {
    match action {
        Action::OpenUrl => Some(FieldKeys { primary: Key::Value, alias: Some(Key::Url) }),
        Action::OpenFile => Some(FieldKeys { primary: Key::Value, alias: Some(Key::Path) }),
        Action::RunCommand => Some(FieldKeys { primary: Key::Value, alias: Some(Key::Command) }),
        Action::SuggestCommand => Some(
            FieldKeys { primary: Key::Value, alias: Some(Key::Command) },
        ),
        Action::ShowDialog => None,
        Action::ChangePage => Some(FieldKeys { primary: Key::Value, alias: Some(Key::Page) }),
        Action::CopyToClipboard => Some(FieldKeys { primary: Key::Value, alias: None }),
        Action::Custom => Some(FieldKeys { primary: Key::Id, alias: None }),
    }
}

/// The keys of the payload field of `action`.
pub fn field_keys(action: Action) -> (keys: Option<FieldKeys>)
    ensures
        keys == keys_of(action),
{
    match action {
        Action::OpenUrl => Some(FieldKeys { primary: Key::Value, alias: Some(Key::Url) }),
        Action::OpenFile => Some(FieldKeys { primary: Key::Value, alias: Some(Key::Path) }),
        Action::RunCommand => Some(FieldKeys { primary: Key::Value, alias: Some(Key::Command) }),
        Action::SuggestCommand => Some(
            FieldKeys { primary: Key::Value, alias: Some(Key::Command) },
        ),
        Action::ShowDialog => None,
        Action::ChangePage => Some(FieldKeys { primary: Key::Value, alias: Some(Key::Page) }),
        Action::CopyToClipboard => Some(FieldKeys { primary: Key::Value, alias: None }),
        Action::Custom => Some(FieldKeys { primary: Key::Id, alias: None }),
    }
}

/// What a lookup by name gives for a field with the keys `keys`: the value
/// under the unified key where there is one, else the value under the
/// legacy key, else the report that the field is missing.
pub open spec fn resolved<T>(
    lookup: spec_fn(Seq<char>) -> Option<T>,
    keys: FieldKeys,
) -> Result<T, DecodeError> {
    match lookup(keys.primary.text()) {
        Some(value) => Ok(value),
        None => match keys.alias {
            Some(alias) => match lookup(alias.text()) {
                Some(value) => Ok(value),
                None => Err(DecodeError::MissingField),
            },
            None => Err(DecodeError::MissingField),
        },
    }
}

/// Reads a string field from `source` under its unified key or else its
/// legacy key.
pub fn resolve_string<'a, S: FieldSource>(source: &'a S, keys: FieldKeys) -> (found: Result<
    &'a str,
    DecodeError,
>)
    ensures
        match found {
            Ok(text) => resolved(|key: Seq<char>| source.string_at(key), keys) == Ok::<
                Seq<char>,
                DecodeError,
            >(text@),
            Err(error) => resolved(|key: Seq<char>| source.string_at(key), keys) == Err::<
                Seq<char>,
                DecodeError,
            >(error),
        },
{
    match source.read_string(keys.primary.name()) {
        Some(text) => Ok(text),
        None => match keys.alias {
            Some(alias) => match source.read_string(alias.name()) {
                Some(text) => Ok(text),
                None => Err(DecodeError::MissingField),
            },
            None => Err(DecodeError::MissingField),
        },
    }
}

/// Reads an integer field from `source` under its unified key or else its
/// legacy key.
pub fn resolve_int<S: FieldSource>(source: &S, keys: FieldKeys) -> (found: Result<
    i32,
    DecodeError,
>)
    ensures
        found == resolved(|key: Seq<char>| source.int_at(key), keys),
{
    match source.read_int(keys.primary.name()) {
        Some(number) => Ok(number),
        None => match keys.alias {
            Some(alias) => match source.read_int(alias.name()) {
                Some(number) => Ok(number),
                None => Err(DecodeError::MissingField),
            },
            None => Err(DecodeError::MissingField),
        },
    }
}

} // verus!
