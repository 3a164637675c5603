//! How a config schema describes its reference page: sections (groups) and
//! the rules by which a group claims fields.

use vstd::prelude::*;

verus! {

/// Schema types the docs generator recognises by name.
#[derive(Debug, Clone, Copy, PartialEq, Eq, Structural)]
pub enum TypeTag {
    /// Color-valued fields.
    ColorValue,
    /// Click-action fields.
    ClickAction,
}

impl TypeTag {
    /// The schema type name this tag corresponds to.
    pub fn schema_name(&self) -> (r: &'static str)
        ensures
            r@ == match *self {
                TypeTag::ColorValue => "ColorValue"@,
                TypeTag::ClickAction => "ClickAction"@,
            },
    {
        match self {
            TypeTag::ColorValue => "ColorValue",
            TypeTag::ClickAction => "ClickAction",
        }
    }
}

/// How a group selects its fields.
#[derive(Debug, Clone, Copy, PartialEq, Eq)]
pub enum GroupRule {
    /// Collects every field no other group claimed.
    CatchAll,
    /// Matches by the field's schema type.
    ByType(TypeTag),
    /// Matches kebab-case field names starting with this prefix.
    Prefix(&'static str),
    /// Matches one field by exact name.
    Standalone(&'static str),
}

/// One section on a generated reference page: a title plus a rule that
/// claims fields from the schema.
#[derive(Debug, Clone, Copy)]
pub struct ConfigGroup {
    /// Heading for the group.
    pub title: &'static str,
    /// How the group claims fields from the schema.
    pub rule: GroupRule,
}

impl ConfigGroup {
    /// Catch-all "General" group.
    pub fn general() -> (r: Self)
        ensures
            r.title@ == "General"@,
            r.rule == GroupRule::CatchAll,
    {
        ConfigGroup { title: "General", rule: GroupRule::CatchAll }
    }

    /// "Colors" group: every field typed as a color.
    pub fn colors() -> (r: Self)
        ensures
            r.title@ == "Colors"@,
            r.rule == GroupRule::ByType(TypeTag::ColorValue),
    {
        ConfigGroup { title: "Colors", rule: GroupRule::ByType(TypeTag::ColorValue) }
    }

    /// "Click actions" group: every field typed as a click action.
    pub fn click() -> (r: Self)
        ensures
            r.title@ == "Click actions"@,
            r.rule == GroupRule::ByType(TypeTag::ClickAction),
    {
        ConfigGroup { title: "Click actions", rule: GroupRule::ByType(TypeTag::ClickAction) }
    }

    /// Group containing every field whose kebab-case name starts with
    /// `prefix`.
    pub fn prefix(title: &'static str, prefix: &'static str) -> (r: Self)
        ensures
            r.title == title,
            r.rule == GroupRule::Prefix(prefix),
    {
        ConfigGroup { title, rule: GroupRule::Prefix(prefix) }
    }

    /// Group containing one field by exact name.
    pub fn standalone(title: &'static str, field: &'static str) -> (r: Self)
        ensures
            r.title == title,
            r.rule == GroupRule::Standalone(field),
    {
        ConfigGroup { title, rule: GroupRule::Standalone(field) }
    }
}

/// Preset group lists for common module shapes.
pub struct GroupDefaults;

impl GroupDefaults {
    /// Single "General" catch-all group.
    pub fn standard() -> (r: Vec<ConfigGroup>)
        ensures
            r@.len() == 1,
            r@[0].title@ == "General"@,
            r@[0].rule == GroupRule::CatchAll,
    {
        let mut v: Vec<ConfigGroup> = Vec::new();
        v.push(ConfigGroup::general());
        v
    }

    /// Four groups for bar-button modules: General, Colors, Click actions,
    /// Dropdown (prefix `dropdown-`).
    pub fn bar_button() -> (r: Vec<ConfigGroup>)
        ensures
            r@.len() == 4,
            r@[0].title@ == "General"@ && r@[0].rule == GroupRule::CatchAll,
            r@[1].title@ == "Colors"@ && r@[1].rule == GroupRule::ByType(TypeTag::ColorValue),
            r@[2].title@ == "Click actions"@ && r@[2].rule == GroupRule::ByType(
                TypeTag::ClickAction,
            ),
            r@[3].title@ == "Dropdown"@,
            r@[3].rule matches GroupRule::Prefix(p) && p@ == "dropdown-"@,
    {
        let mut v: Vec<ConfigGroup> = Vec::new();
        v.push(ConfigGroup::general());
        v.push(ConfigGroup::colors());
        v.push(ConfigGroup::click());
        v.push(ConfigGroup::prefix("Dropdown", "dropdown-"));
        v
    }
}

} // verus!
