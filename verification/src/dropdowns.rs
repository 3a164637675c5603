//! Sections of user-defined dropdown panels.

use vstd::prelude::*;

verus! {

/// Available section types for custom dropdowns.
#[derive(Debug, Clone, Copy, PartialEq, Eq, Structural)]
pub enum SectionType {
    /// List-based item picker driven by shell commands.
    Picker,
}

/// A section within a custom dropdown. The section type decides which of
/// the other fields are relevant.
#[derive(Debug, PartialEq)]
pub struct SectionDefinition {
    /// The type of section to render.
    pub section_type: SectionType,
    /// Shell command that outputs the list of selectable items.
    pub list_command: Option<String>,
    /// Shell command to run when an item is selected.
    pub select_command: Option<String>,
}

/// Configuration for a picker section: the picker-specific fields of a
/// section.
#[derive(Debug)]
pub struct PickerSectionConfig {
    /// Shell command that outputs the list of selectable items.
    pub list_command: Option<String>,
    /// Shell command to run when an item is selected.
    pub select_command: Option<String>,
}

fn copy_opt_string(s: &Option<String>) -> (r: Option<String>)
    ensures
        r == *s,
{
    match s {
        Some(v) => Some(v.clone()),
        None => None,
    }
}

impl SectionDefinition {
    /// Extract picker-specific configuration from this section; `Some`
    /// exactly when the section is a picker.
    pub fn as_picker(&self) -> (r: Option<PickerSectionConfig>)
        ensures
            match self.section_type {
                SectionType::Picker => r matches Some(p) && p.list_command == self.list_command
                    && p.select_command == self.select_command,
            },
    {
        match self.section_type {
            SectionType::Picker => Some(
                PickerSectionConfig {
                    list_command: copy_opt_string(&self.list_command),
                    select_command: copy_opt_string(&self.select_command),
                },
            ),
        }
    }
}

} // verus!
