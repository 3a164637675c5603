//! Hyprland workspace switcher settings: display enums, the active
//! indicator's CSS class, and the per-workspace style table keyed by
//! workspace id.

use std::collections::HashMap;
use vstd::prelude::*;
use crate::numbers::{parse_i32, parse_i32_spec};

verus! {

/// What identifies a workspace in the UI.
#[derive(Debug, Clone, Copy, Default, PartialEq, Eq, Structural)]
pub enum DisplayMode {
    /// Show workspace number or name.
    #[default]
    Label,
    /// Show icon from `workspace-map` (falls back to label if unmapped).
    Icon,
    /// Show nothing - only app icons visible.
    Blank,
}

/// How workspace numbers are displayed.
#[derive(Debug, Clone, Copy, Default, PartialEq, Eq, Structural)]
pub enum Numbering {
    /// Show actual workspace IDs.
    #[default]
    Absolute,
    /// Show numbers relative to monitor's starting workspace.
    Relative,
}

/// Where the urgent pulse animation is applied.
#[derive(Debug, Clone, Copy, Default, PartialEq, Eq, Structural)]
pub enum UrgentMode {
    /// Pulse the entire workspace.
    #[default]
    Workspace,
    /// Pulse only the app icon(s) belonging to the urgent window.
    Application,
}

/// How the workspace preview popup is triggered.
#[derive(Debug, Clone, Copy, Default, PartialEq, Eq, Structural)]
pub enum PreviewTrigger {
    /// Cursor dwell with configurable delay.
    #[default]
    Hover,
    /// Right-click on workspace button.
    RightClick,
}

/// Visual indicator style for the active workspace.
#[derive(Debug, Clone, Copy, Default, PartialEq, Eq, Structural)]
pub enum ActiveIndicator {
    /// Entire button gets a colored background.
    #[default]
    Background,
    /// Small colored bar under the workspace button.
    Underline,
}

impl ActiveIndicator {
    /// CSS class for this indicator style.
    pub fn css_class(self) -> (r: &'static str)
        ensures
            r@ == match self {
                ActiveIndicator::Background => "indicator-background"@,
                ActiveIndicator::Underline => "indicator-underline"@,
            },
    {
        match self {
            ActiveIndicator::Background => "indicator-background",
            ActiveIndicator::Underline => "indicator-underline",
        }
    }
}

/// Per-workspace styling override. The color is kept in the form in which
/// it is written in the config.
#[derive(Debug, Default, PartialEq)]
pub struct WorkspaceStyle {
    /// Custom icon for this workspace.
    pub icon: Option<String>,
    /// Custom background color for this workspace when active.
    pub color: Option<String>,
}

/// A table key that is not a workspace id.
#[derive(Debug, PartialEq, Eq)]
pub struct WorkspaceKeyError {
    /// The offending key.
    pub key: String,
}

/// Whether every key of a table names a workspace id.
pub open spec fn keys_are_ids(entries: Seq<(String, WorkspaceStyle)>) -> bool {
    forall|i: int| 0 <= i < entries.len() ==> (#[trigger] parse_i32_spec(entries[i].0@)) is Some
}

/// The table that a list of entries with id keys denotes; an earlier entry
/// wins over a later one with the same id.
pub open spec fn keyed_styles(entries: Seq<(String, WorkspaceStyle)>) -> Map<i32, WorkspaceStyle>
    decreases entries.len(),
{
    if entries.len() == 0 {
        Map::empty()
    } else {
        keyed_styles(entries.drop_first()).insert(
            parse_i32_spec(entries[0].0@).unwrap(),
            entries[0].1,
        )
    }
}

/// Per-workspace icon and color mappings keyed by workspace id. Config
/// table keys are strings, so they are parsed into ids.
#[derive(Debug, Default)]
pub struct WorkspaceMap(HashMap<i32, WorkspaceStyle>);

impl WorkspaceMap {
    /// The id -> style table.
    pub closed spec fn entries(&self) -> Map<i32, WorkspaceStyle> {
        self.0@
    }

    /// Builds the table from entries keyed by strings such as `"1"`.
    pub fn from_string_keys(entries: Vec<(String, WorkspaceStyle)>) -> (r: Result<Self, WorkspaceKeyError>)
        ensures
            r is Ok <==> keys_are_ids(entries@),
            r matches Ok(m) ==> m.entries() == keyed_styles(entries@),
            r matches Err(e) ==> exists|i: int|
                0 <= i < entries@.len() && e.key@ == entries@[i].0@ && parse_i32_spec(
                    entries@[i].0@,
                ) is None,
    {
        broadcast use vstd::std_specs::hash::group_hash_axioms;

        let ghost all = entries@;
        assert(all == entries@);
        let mut rest = entries;
        let mut map: HashMap<i32, WorkspaceStyle> = HashMap::new();
        proof {
            assert(all.skip(all.len() as int) =~= Seq::<(String, WorkspaceStyle)>::empty());
            assert(map@ =~= keyed_styles(all.skip(all.len() as int)));
        }
        while rest.len() > 0
            invariant
                all == entries@,
                rest@ == all.take(rest@.len() as int),
                rest@.len() <= all.len(),
                map@ == keyed_styles(all.skip(rest@.len() as int)),
                keys_are_ids(all.skip(rest@.len() as int)),
            decreases rest@.len(),
        {
            let ghost k = rest@.len() - 1;
            let (key, style) = rest.pop().unwrap();
            assert(all[k] == (key, style));
            assert(all.skip(k).drop_first() =~= all.skip(k + 1));
            assert(rest@ =~= all.take(k));
            match parse_i32(key.as_str()) {
                Some(id) => {
                    map.insert(id, style);
                    assert forall|i: int| 0 <= i < all.skip(k).len() implies (#[trigger] parse_i32_spec(
                        all.skip(k)[i].0@,
                    )) is Some by {
                        if i > 0 {
                            assert(all.skip(k)[i] == all.skip(k + 1)[i - 1]);
                        }
                    }
                },
                None => {
                    assert(all[k].0@ == key@);
                    assert(parse_i32_spec(all[k].0@) is None);
                    assert(0 <= k < all.len());
                    return Err(WorkspaceKeyError { key });
                },
            }
        }
        assert(all.skip(0) =~= all);
        Ok(WorkspaceMap(map))
    }

    /// The style for a workspace id, if one is configured.
    pub fn get(&self, id: i32) -> (r: Option<&WorkspaceStyle>)
        ensures
            match r {
                Some(s) => self.entries().contains_key(id) && *s == self.entries()[id],
                None => !self.entries().contains_key(id),
            },
    {
        broadcast use vstd::std_specs::hash::group_hash_axioms;

        self.0.get(&id)
    }

    /// The number of configured workspaces.
    pub fn len(&self) -> (r: usize)
        ensures
            r == self.entries().len(),
    {
        broadcast use vstd::std_specs::hash::group_hash_axioms;

        self.0.len()
    }

    /// The underlying table.
    pub fn as_map(&self) -> (r: &HashMap<i32, WorkspaceStyle>)
        ensures
            r@ == self.entries(),
    {
        &self.0
    }
}

} // verus!
