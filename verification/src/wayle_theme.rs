//! Color constants of the default Wayle theme.

use vstd::prelude::*;

verus! {

/// Default theme color: bg.
pub const BG: &'static str = "#141420";

/// Default theme color: surface.
pub const SURFACE: &'static str = "#1c1c2c";

/// Default theme color: elevated.
pub const ELEVATED: &'static str = "#262638";

/// Default theme color: fg.
pub const FG: &'static str = "#d4d6e8";

/// Default theme color: fg-muted.
pub const FG_MUTED: &'static str = "#8a8ca4";

/// Default theme color: primary.
pub const PRIMARY: &'static str = "#e0947a";

/// Default theme color: red.
pub const RED: &'static str = "#e46870";

/// Default theme color: yellow.
pub const YELLOW: &'static str = "#e0b870";

/// Default theme color: green.
pub const GREEN: &'static str = "#68c898";

/// Default theme color: blue.
pub const BLUE: &'static str = "#78a0e0";

} // verus!
