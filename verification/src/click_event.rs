//! The click event itself: a closed set of variants, and the errors that
//! reading one from a container can end in.

use vstd::prelude::*;
use vstd::std_specs::cmp::PartialEqSpecImpl;
use crate::action::Action;

verus! {

/// Why a container could not be read as a click event.
#[derive(Clone, Copy, Debug, PartialEq, Eq, Structural)]
pub enum DecodeError {
    /// A required field is under neither its unified key nor its legacy key.
    MissingField,
    /// The `action` field holds a name that stands for no kind of event.
    UnrecognizedAction,
    /// A field is there, but holds a value of another type than the one
    /// expected. Only the binary codec reports this, and only for the page
    /// number; callers may treat it as a missing field.
    WrongFieldType,
}

/// What happens when a piece of chat text is clicked.
#[derive(Debug)]
pub enum ClickEvent {
    OpenUrl { url: String },
    OpenFile { path: String },
    RunCommand { command: String },
    SuggestCommand { command: String },
    /// The dialog to show is not modelled.
    ShowDialog,
    ChangePage { page: i32 },
    CopyToClipboard { value: String },
    /// The payload slot is kept for a structured payload; today it is
    /// always the unit value, and no codec writes or reads it.
    Custom { id: String, payload: () },
}

/// A click event as a mathematical value: strings are sequences of
/// characters, and the payload slot of `Custom`, which holds nothing, is
/// left out.
pub enum ClickEventView {
    OpenUrl { url: Seq<char> },
    OpenFile { path: Seq<char> },
    RunCommand { command: Seq<char> },
    SuggestCommand { command: Seq<char> },
    ShowDialog,
    ChangePage { page: i32 },
    CopyToClipboard { value: Seq<char> },
    Custom { id: Seq<char> },
}

impl ClickEventView {
    /// The kind of this event.
    pub open spec fn action(self) -> Action {
        match self {
            ClickEventView::OpenUrl { .. } => Action::OpenUrl,
            ClickEventView::OpenFile { .. } => Action::OpenFile,
            ClickEventView::RunCommand { .. } => Action::RunCommand,
            ClickEventView::SuggestCommand { .. } => Action::SuggestCommand,
            ClickEventView::ShowDialog => Action::ShowDialog,
            ClickEventView::ChangePage { .. } => Action::ChangePage,
            ClickEventView::CopyToClipboard { .. } => Action::CopyToClipboard,
            ClickEventView::Custom { .. } => Action::Custom,
        }
    }
}

impl View for ClickEvent {
    type V = ClickEventView;

    open spec fn view(&self) -> ClickEventView {
        match self {
            ClickEvent::OpenUrl { url } => ClickEventView::OpenUrl { url: url@ },
            ClickEvent::OpenFile { path } => ClickEventView::OpenFile { path: path@ },
            ClickEvent::RunCommand { command } => ClickEventView::RunCommand { command: command@ },
            ClickEvent::SuggestCommand { command } => ClickEventView::SuggestCommand {
                command: command@,
            },
            ClickEvent::ShowDialog => ClickEventView::ShowDialog,
            ClickEvent::ChangePage { page } => ClickEventView::ChangePage { page: *page },
            ClickEvent::CopyToClipboard { value } => ClickEventView::CopyToClipboard {
                value: value@,
            },
            ClickEvent::Custom { id, .. } => ClickEventView::Custom { id: id@ },
        }
    }
}

impl ClickEvent {
    /// The kind of this event.
    pub fn action(&self) -> (action: Action)
        ensures
            action == self@.action(),
    {
        match self {
            ClickEvent::OpenUrl { .. } => Action::OpenUrl,
            ClickEvent::OpenFile { .. } => Action::OpenFile,
            ClickEvent::RunCommand { .. } => Action::RunCommand,
            ClickEvent::SuggestCommand { .. } => Action::SuggestCommand,
            ClickEvent::ShowDialog => Action::ShowDialog,
            ClickEvent::ChangePage { .. } => Action::ChangePage,
            ClickEvent::CopyToClipboard { .. } => Action::CopyToClipboard,
            ClickEvent::Custom { .. } => Action::Custom,
        }
    }
}

/// The outcome of a decoding as a mathematical value.
pub open spec fn outcome(result: Result<ClickEvent, DecodeError>) -> Result<
    ClickEventView,
    DecodeError,
> {
    match result {
        Ok(event) => Ok(event@),
        Err(error) => Err(error),
    }
}

impl Clone for ClickEvent {
    fn clone(&self) -> (copy: Self)
        ensures
            copy@ == self@,
    {
        match self {
            ClickEvent::OpenUrl { url } => ClickEvent::OpenUrl { url: url.clone() },
            ClickEvent::OpenFile { path } => ClickEvent::OpenFile { path: path.clone() },
            ClickEvent::RunCommand { command } => ClickEvent::RunCommand {
                command: command.clone(),
            },
            ClickEvent::SuggestCommand { command } => ClickEvent::SuggestCommand {
                command: command.clone(),
            },
            ClickEvent::ShowDialog => ClickEvent::ShowDialog,
            ClickEvent::ChangePage { page } => ClickEvent::ChangePage { page: *page },
            ClickEvent::CopyToClipboard { value } => ClickEvent::CopyToClipboard {
                value: value.clone(),
            },
            ClickEvent::Custom { id, .. } => ClickEvent::Custom { id: id.clone(), payload: () },
        }
    }
}

impl PartialEq for ClickEvent {
    fn eq(&self, other: &Self) -> (equal: bool) {
        match (self, other) {
            (ClickEvent::OpenUrl { url: a }, ClickEvent::OpenUrl { url: b }) => *a == *b,
            (ClickEvent::OpenFile { path: a }, ClickEvent::OpenFile { path: b }) => *a == *b,
            (ClickEvent::RunCommand { command: a }, ClickEvent::RunCommand { command: b }) => *a
                == *b,
            (
                ClickEvent::SuggestCommand { command: a },
                ClickEvent::SuggestCommand { command: b },
            ) => *a == *b,
            (ClickEvent::ShowDialog, ClickEvent::ShowDialog) => true,
            (ClickEvent::ChangePage { page: a }, ClickEvent::ChangePage { page: b }) => *a == *b,
            (
                ClickEvent::CopyToClipboard { value: a },
                ClickEvent::CopyToClipboard { value: b },
            ) => *a == *b,
            (ClickEvent::Custom { id: a, .. }, ClickEvent::Custom { id: b, .. }) => *a == *b,
            _ => false,
        }
    }
}

/// Two click events are equal when they are of the same variant and hold
/// the same field values.
impl PartialEqSpecImpl for ClickEvent {
    open spec fn obeys_eq_spec() -> bool {
        true
    }

    open spec fn eq_spec(&self, other: &Self) -> bool {
        self@ == other@
    }
}

} // verus!
