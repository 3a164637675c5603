//! General shell settings.

use vstd::prelude::*;

verus! {

/// Layer-shell layer a window is placed on, from furthest back to furthest
/// front.
#[derive(Debug, Clone, Copy, Default, PartialEq, Eq, Structural)]
pub enum Layer {
    /// Below everything else, used for wallpapers and ambient surfaces.
    Background,
    /// Behind regular application windows.
    Bottom,
    /// Above regular application windows.
    #[default]
    Top,
    /// Above everything, including fullscreen application windows.
    Overlay,
}

} // verus!
