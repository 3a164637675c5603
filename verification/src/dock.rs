//! Dock settings.

use vstd::prelude::*;

verus! {

/// Dock position on screen.
#[derive(Debug, Clone, Copy, PartialEq, Eq, Structural)]
pub enum DockPosition {
    /// Bottom edge of the screen.
    Bottom,
    /// Left edge of the screen.
    Left,
    /// Right edge of the screen.
    Right,
}

/// Dock visibility mode.
#[derive(Debug, Clone, Copy, Default, PartialEq, Eq, Structural)]
pub enum DockVisibility {
    /// Dock is always visible.
    #[default]
    AlwaysVisible,
    /// Dock hides automatically and shows on hover.
    Autohide,
}

} // verus!
