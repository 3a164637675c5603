//! Media module settings.

use vstd::prelude::*;

verus! {

/// Icon display mode for the media module.
#[derive(Debug, Clone, Copy, Default, PartialEq, Eq, Structural)]
pub enum MediaIconType {
    /// Static icon from icon-name field.
    Default,
    /// Dynamic icon from media player's desktop entry.
    Application,
    /// Spinning disc icon that animates during playback.
    SpinningDisc,
    /// Maps player to icon via glob patterns.
    #[default]
    ApplicationMapped,
}

impl MediaIconType {
    /// Returns the kebab-case string representation.
    pub fn as_str(self) -> (r: &'static str)
        ensures
            r@ == match self {
                MediaIconType::Default => "default"@,
                MediaIconType::Application => "application"@,
                MediaIconType::SpinningDisc => "spinning-disc"@,
                MediaIconType::ApplicationMapped => "application-mapped"@,
            },
    {
        match self {
            MediaIconType::Default => "default",
            MediaIconType::Application => "application",
            MediaIconType::SpinningDisc => "spinning-disc",
            MediaIconType::ApplicationMapped => "application-mapped",
        }
    }
}

} // verus!
