//! Niri workspace switcher settings: the label strategy, the click-action
//! grammar of workspace buttons, and the per-workspace style table keyed by
//! workspace name.

use std::collections::HashMap;
use vstd::prelude::*;
use crate::hyprland_workspaces::WorkspaceStyle;
use crate::text::{str_eq, strip_prefix};

verus! {

/// What identifies each workspace's label.
#[derive(Debug, Clone, Copy, Default, PartialEq, Eq, Structural)]
pub enum LabelStrategy {
    /// Always show the index (e.g. `1`, `2`, `3`).
    Index,
    /// Show the name when set, fall back to the index.
    #[default]
    NameOrIndex,
    /// Show only the name; unnamed workspaces show nothing.
    NameOnly,
    /// Show both, joined as `"1: web"`.
    IndexAndName,
}

/// Action wired to a click or scroll event on a workspace button.
///
/// Written in the config as a string: `""`, `"focus:this"`, `"focus:next"`,
/// `"focus:previous"`, `"focus:last"`, `"dropdown:NAME"`, or anything else as
/// a shell command.
#[derive(Debug, PartialEq, Eq)]
pub enum WorkspaceClickAction {
    /// Do nothing.
    NoAction,
    /// Focus the workspace under the cursor.
    FocusWorkspace,
    /// Focus the next workspace on this output.
    FocusNext,
    /// Focus the previous workspace on this output.
    FocusPrevious,
    /// Focus the last previously focused workspace (toggle).
    FocusLast,
    /// Open a named dropdown panel.
    Dropdown(String),
    /// Execute a shell command.
    Shell(String),
}

/// The abstract value of a workspace click action.
pub enum WorkspaceClickView {
    /// Do nothing.
    NoAction,
    /// Focus the workspace under the cursor.
    FocusWorkspace,
    /// Focus the next workspace.
    FocusNext,
    /// Focus the previous workspace.
    FocusPrevious,
    /// Focus the last focused workspace.
    FocusLast,
    /// Open the named dropdown.
    Dropdown(Seq<char>),
    /// Run the command.
    Shell(Seq<char>),
}

impl View for WorkspaceClickAction {
    type V = WorkspaceClickView;

    open spec fn view(&self) -> WorkspaceClickView {
        match *self {
            WorkspaceClickAction::NoAction => WorkspaceClickView::NoAction,
            WorkspaceClickAction::FocusWorkspace => WorkspaceClickView::FocusWorkspace,
            WorkspaceClickAction::FocusNext => WorkspaceClickView::FocusNext,
            WorkspaceClickAction::FocusPrevious => WorkspaceClickView::FocusPrevious,
            WorkspaceClickAction::FocusLast => WorkspaceClickView::FocusLast,
            WorkspaceClickAction::Dropdown(n) => WorkspaceClickView::Dropdown(n@),
            WorkspaceClickAction::Shell(c) => WorkspaceClickView::Shell(c@),
        }
    }
}

/// The workspace click action that a config string denotes.
pub open spec fn parse_workspace_click(s: Seq<char>) -> WorkspaceClickView {
    if s.len() == 0 {
        WorkspaceClickView::NoAction
    } else if s == "focus:this"@ {
        WorkspaceClickView::FocusWorkspace
    } else if s == "focus:next"@ {
        WorkspaceClickView::FocusNext
    } else if s == "focus:previous"@ {
        WorkspaceClickView::FocusPrevious
    } else if s == "focus:last"@ {
        WorkspaceClickView::FocusLast
    } else if "dropdown:"@.is_prefix_of(s) {
        WorkspaceClickView::Dropdown(s.skip(9))
    } else {
        WorkspaceClickView::Shell(s)
    }
}

/// The config string of a workspace click action.
pub open spec fn workspace_click_string(a: WorkspaceClickView) -> Seq<char> {
    match a {
        WorkspaceClickView::NoAction => Seq::empty(),
        WorkspaceClickView::FocusWorkspace => "focus:this"@,
        WorkspaceClickView::FocusNext => "focus:next"@,
        WorkspaceClickView::FocusPrevious => "focus:previous"@,
        WorkspaceClickView::FocusLast => "focus:last"@,
        WorkspaceClickView::Dropdown(n) => "dropdown:"@ + n,
        WorkspaceClickView::Shell(c) => c,
    }
}

/// Whether a workspace click action is written in a form that reads back
/// as itself: a shell command must be non-empty and must not look like one
/// of the other actions.
pub open spec fn canonical_workspace_click(a: WorkspaceClickView) -> bool {
    match a {
        WorkspaceClickView::Shell(c) => {
            &&& c.len() > 0
            &&& c != "focus:this"@
            &&& c != "focus:next"@
            &&& c != "focus:previous"@
            &&& c != "focus:last"@
            &&& !"dropdown:"@.is_prefix_of(c)
        },
        _ => true,
    }
}

impl WorkspaceClickAction {
    /// Parses an action from its config string.
    pub fn from_str(value: &str) -> (r: Self)
        ensures
            r@ == parse_workspace_click(value@),
    {
        if value.unicode_len() == 0 {
            return WorkspaceClickAction::NoAction;
        }
        if str_eq(value, "focus:this") {
            WorkspaceClickAction::FocusWorkspace
        } else if str_eq(value, "focus:next") {
            WorkspaceClickAction::FocusNext
        } else if str_eq(value, "focus:previous") {
            WorkspaceClickAction::FocusPrevious
        } else if str_eq(value, "focus:last") {
            WorkspaceClickAction::FocusLast
        } else {
            match strip_prefix(value, "dropdown:") {
                Some(name) => {
                    proof {
                        reveal_strlit("dropdown:");
                    }
                    WorkspaceClickAction::Dropdown(name.to_owned())
                },
                None => WorkspaceClickAction::Shell(value.to_owned()),
            }
        }
    }

    /// The string under which this action is written in the config.
    pub fn to_config_string(&self) -> (r: String)
        ensures
            r@ == workspace_click_string(self@),
    {
        match self {
            WorkspaceClickAction::NoAction => String::new(),
            WorkspaceClickAction::FocusWorkspace => String::from_str("focus:this"),
            WorkspaceClickAction::FocusNext => String::from_str("focus:next"),
            WorkspaceClickAction::FocusPrevious => String::from_str("focus:previous"),
            WorkspaceClickAction::FocusLast => String::from_str("focus:last"),
            WorkspaceClickAction::Dropdown(name) => String::from_str("dropdown:").concat(
                name.as_str(),
            ),
            WorkspaceClickAction::Shell(cmd) => cmd.clone(),
        }
    }
}

impl Default for WorkspaceClickAction {
    fn default() -> (r: Self)
        ensures
            r@ == WorkspaceClickView::NoAction,
    {
        WorkspaceClickAction::NoAction
    }
}

/// Writing a parsed string gives back the string.
pub proof fn law_workspace_click_parse_then_print(s: Seq<char>)
    ensures
        workspace_click_string(parse_workspace_click(s)) == s,
{
    reveal_strlit("dropdown:");
    assert("dropdown:"@.len() == 9);
    if parse_workspace_click(s) is Dropdown {
        assert("dropdown:"@ + s.skip(9) =~= s);
    }
}

/// Reading a written action gives back the action, for every action written
/// in its canonical form.
pub proof fn law_workspace_click_print_then_parse(a: WorkspaceClickView)
    requires
        canonical_workspace_click(a),
    ensures
        parse_workspace_click(workspace_click_string(a)) == a,
{
    reveal_strlit("focus:this");
    reveal_strlit("focus:next");
    reveal_strlit("focus:previous");
    reveal_strlit("focus:last");
    reveal_strlit("dropdown:");
    assert("focus:this"@.len() == 10);
    assert("focus:next"@.len() == 10);
    assert("focus:previous"@.len() == 14);
    assert("focus:last"@.len() == 10);
    assert("dropdown:"@.len() == 9);
    assert("focus:this"@[6] != "focus:next"@[6]);
    assert("focus:this"@[6] != "focus:last"@[6]);
    assert("focus:next"@[6] != "focus:last"@[6]);
    match a {
        WorkspaceClickView::Dropdown(n) => {
            let s = "dropdown:"@ + n;
            assert(s.subrange(0, 9) =~= "dropdown:"@);
            assert(s.skip(9) =~= n);
            assert(s[0] == 'd');
            assert("focus:this"@[0] == 'f');
        },
        WorkspaceClickView::FocusWorkspace => {
            assert("focus:this"@.subrange(0, 9)[0] != "dropdown:"@[0]);
        },
        WorkspaceClickView::FocusNext => {
            assert("focus:next"@.subrange(0, 9)[0] != "dropdown:"@[0]);
        },
        WorkspaceClickView::FocusPrevious => {
            assert("focus:previous"@.subrange(0, 9)[0] != "dropdown:"@[0]);
        },
        WorkspaceClickView::FocusLast => {
            assert("focus:last"@.subrange(0, 9)[0] != "dropdown:"@[0]);
        },
        _ => {},
    }
}

/// Per-workspace icon and color overrides, keyed by workspace name or
/// id-as-string.
#[derive(Debug, Default)]
pub struct WorkspaceMap(HashMap<String, WorkspaceStyle>);

impl WorkspaceMap {
    /// The name -> style table.
    pub closed spec fn entries(&self) -> Map<String, WorkspaceStyle> {
        self.0@
    }

    /// Wraps a table.
    pub fn new(map: HashMap<String, WorkspaceStyle>) -> (r: Self)
        ensures
            r.entries() == map@,
    {
        WorkspaceMap(map)
    }

    /// The underlying table.
    pub fn as_map(&self) -> (r: &HashMap<String, WorkspaceStyle>)
        ensures
            r@ == self.entries(),
    {
        &self.0
    }
}

} // verus!
