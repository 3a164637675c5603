//! Enum variant metadata for settings GUI dropdowns.

use vstd::prelude::*;

verus! {

/// A single variant's config value paired with its Fluent i18n key.
#[derive(Debug, Clone, Copy, PartialEq, Eq)]
pub struct EnumVariant {
    /// What goes into the config, e.g. `"top"`.
    pub value: &'static str,
    /// Fluent message ID for the dropdown label, e.g. `"enum-location-top"`.
    pub fluent_key: &'static str,
}

/// Lists all variants of a config enum for the settings GUI dropdown.
pub trait EnumVariants: Sized {
    /// All variants with their config values and Fluent keys.
    fn variants() -> &'static [EnumVariant];
}

} // verus!
