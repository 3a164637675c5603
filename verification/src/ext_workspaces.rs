//! Settings of the workspace switcher backed by the generic Wayland
//! workspace protocol, which has no stable numeric ids.

use std::collections::BTreeMap;
use vstd::prelude::*;
use crate::hyprland_workspaces::WorkspaceStyle;

verus! {

/// Per-workspace icon and color overrides, keyed by workspace name.
#[derive(Debug, Default)]
pub struct ExtWorkspaceMap(BTreeMap<String, WorkspaceStyle>);

impl ExtWorkspaceMap {
    /// The name -> style table.
    pub closed spec fn entries(&self) -> Map<String, WorkspaceStyle> {
        self.0@
    }

    /// Wraps a table.
    pub fn new(map: BTreeMap<String, WorkspaceStyle>) -> (r: Self)
        ensures
            r.entries() == map@,
    {
        ExtWorkspaceMap(map)
    }

    /// The underlying table, ordered by name.
    pub fn as_map(&self) -> (r: &BTreeMap<String, WorkspaceStyle>)
        ensures
            r@ == self.entries(),
    {
        &self.0
    }
}

} // verus!
