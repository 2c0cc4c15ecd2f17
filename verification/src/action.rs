//! The discriminator of a click event.

use vstd::prelude::*;
use crate::strings::str_eq;

verus! {

/// The kinds of click event, one for each value that the `action` field of
/// a container may hold.
#[derive(Clone, Copy, Debug, PartialEq, Eq, Structural)]
pub enum Action {
    OpenUrl,
    OpenFile,
    RunCommand,
    SuggestCommand,
    ShowDialog,
    ChangePage,
    CopyToClipboard,
    Custom,
}

impl Action {
    /// The snake-case name under which this kind travels.
    pub open spec fn tag(self) -> Seq<char> {
        match self {
            Action::OpenUrl => "open_url"@,
            Action::OpenFile => "open_file"@,
            Action::RunCommand => "run_command"@,
            Action::SuggestCommand => "suggest_command"@,
            Action::ShowDialog => "show_dialog"@,
            Action::ChangePage => "change_page"@,
            Action::CopyToClipboard => "copy_to_clipboard"@,
            Action::Custom => "custom"@,
        }
    }

    /// The kind that a name stands for, if it stands for one.
    pub open spec fn from_tag(name: Seq<char>) -> Option<Action> {
        if name == "open_url"@ {
            Some(Action::OpenUrl)
        } else if name == "open_file"@ {
            Some(Action::OpenFile)
        } else if name == "run_command"@ {
            Some(Action::RunCommand)
        } else if name == "suggest_command"@ {
            Some(Action::SuggestCommand)
        } else if name == "show_dialog"@ {
            Some(Action::ShowDialog)
        } else if name == "change_page"@ {
            Some(Action::ChangePage)
        } else if name == "copy_to_clipboard"@ {
            Some(Action::CopyToClipboard)
        } else if name == "custom"@ {
            Some(Action::Custom)
        } else {
            None
        }
    }

    /// The name written into the `action` field.
    pub fn name(self) -> (name: &'static str)
        ensures
            name@ == self.tag(),
    {
        match self {
            Action::OpenUrl => "open_url",
            Action::OpenFile => "open_file",
            Action::RunCommand => "run_command",
            Action::SuggestCommand => "suggest_command",
            Action::ShowDialog => "show_dialog",
            Action::ChangePage => "change_page",
            Action::CopyToClipboard => "copy_to_clipboard",
            Action::Custom => "custom",
        }
    }

    /// Reads the `action` field: `None` for a name that is none of the eight.
    pub fn parse(name: &str) -> (action: Option<Action>)
        ensures
            action == Action::from_tag(name@),
    {
        if str_eq(name, "open_url") {
            Some(Action::OpenUrl)
        } else if str_eq(name, "open_file") {
            Some(Action::OpenFile)
        } else if str_eq(name, "run_command") {
            Some(Action::RunCommand)
        } else if str_eq(name, "suggest_command") {
            Some(Action::SuggestCommand)
        } else if str_eq(name, "show_dialog") {
            Some(Action::ShowDialog)
        } else if str_eq(name, "change_page") {
            Some(Action::ChangePage)
        } else if str_eq(name, "copy_to_clipboard") {
            Some(Action::CopyToClipboard)
        } else if str_eq(name, "custom") {
            Some(Action::Custom)
        } else {
            None
        }
    }

    /// No two kinds share a name, so a name leads back to its kind, and a
    /// kind read from a name has that name.
    pub proof fn lemma_tag_names(action: Action, name: Seq<char>)
        ensures
            Action::from_tag(action.tag()) == Some(action),
            Action::from_tag(name) == Some(action) <==> name == action.tag(),
    {
        reveal_strlit("open_url");
        reveal_strlit("open_file");
        reveal_strlit("run_command");
        reveal_strlit("suggest_command");
        reveal_strlit("show_dialog");
        reveal_strlit("change_page");
        reveal_strlit("copy_to_clipboard");
        reveal_strlit("custom");
        assert("open_url"@.len() == 8);
        assert("open_file"@.len() == 9);
        assert("run_command"@.len() == 11 && "run_command"@[0] == 'r');
        assert("suggest_command"@.len() == 15);
        assert("show_dialog"@.len() == 11 && "show_dialog"@[0] == 's');
        assert("change_page"@.len() == 11 && "change_page"@[0] == 'c');
        assert("copy_to_clipboard"@.len() == 17);
        assert("custom"@.len() == 6);
    }
}

} // verus!
