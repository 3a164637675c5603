//! Keeping the editor-support files in the config directory current: the
//! schema identifiers and the decision whether a file must be rewritten.

use vstd::prelude::*;
use crate::text::{contains, contains_spec, str_eq};

verus! {

/// The version of this configuration crate, carried in the schema ids.
pub const PACKAGE_VERSION: &'static str = "0.1.0";

/// The editor configuration that maps config files to their schemas.
pub const TOMBI_CONFIG: &'static str = "[schema]
enabled = true

[[schemas]]
path = \"./schema.json\"
include = [\"config.toml\", \"runtime.toml\"]

[[schemas]]
path = \"./themes/schema.json\"
include = [\"themes/*.toml\"]
";

/// The `$id` of the root config schema for a package version.
pub fn root_schema_id(version: &str) -> (r: String)
    ensures
        r@ == "wayle-config-"@ + version@,
{
    String::from_str("wayle-config-").concat(version)
}

/// The `$id` of the theme palette schema for a package version.
pub fn theme_schema_id(version: &str) -> (r: String)
    ensures
        r@ == "wayle-theme-"@ + version@,
{
    String::from_str("wayle-theme-").concat(version)
}

/// Whether a schema file must be (re)written: it could not be read, or it
/// does not mention the current schema `$id`.
pub fn schema_needs_update(existing: Option<&str>, id: &str) -> (r: bool)
    ensures
        r == match existing {
            Some(text) => !contains_spec(text@, id@),
            None => true,
        },
{
    match existing {
        Some(text) => !contains(text, id),
        None => true,
    }
}

/// Whether the editor configuration must be (re)written: it could not be
/// read, or it differs from the current one.
pub fn tombi_needs_update(current: Option<&str>) -> (r: bool)
    ensures
        r == match current {
            Some(text) => text@ != TOMBI_CONFIG@,
            None => true,
        },
{
    match current {
        Some(text) => !str_eq(text, TOMBI_CONFIG),
        None => true,
    }
}

} // verus!
