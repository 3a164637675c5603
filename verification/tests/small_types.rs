use wayle_config::docs::{ConfigGroup, GroupDefaults, GroupRule, TypeTag};
use wayle_config::dropdowns::{SectionDefinition, SectionType};
use wayle_config::error::{InvalidFieldReason, IoOperation};
use wayle_config::media::MediaIconType;

#[test]
fn error_messages() {
    assert_eq!(InvalidFieldReason::NotFound.message(), "field not found");
    assert_eq!(InvalidFieldReason::ParentNotTable.message(), "parent is not a table");
    assert_eq!(IoOperation::ResolvePath.message(), "resolve path");
    assert_eq!(IoOperation::AccessConfigDir.message(), "access config directory");
}

#[test]
fn media_icon_names() {
    assert_eq!(MediaIconType::SpinningDisc.as_str(), "spinning-disc");
    assert_eq!(MediaIconType::ApplicationMapped.as_str(), "application-mapped");
}

#[test]
fn picker_sections() {
    let s = SectionDefinition {
        section_type: SectionType::Picker,
        list_command: Some(String::from("ls")),
        select_command: None,
    };
    let p = s.as_picker().unwrap();
    assert_eq!(p.list_command, Some(String::from("ls")));
    assert_eq!(p.select_command, None);
}

#[test]
fn doc_groups() {
    assert_eq!(TypeTag::ColorValue.schema_name(), "ColorValue");
    let std_groups = GroupDefaults::standard();
    assert_eq!(std_groups.len(), 1);
    assert_eq!(std_groups[0].rule, GroupRule::CatchAll);
    let b = GroupDefaults::bar_button();
    assert_eq!(b.len(), 4);
    assert_eq!(b[2].title, "Click actions");
    assert_eq!(b[3].rule, GroupRule::Prefix("dropdown-"));
    assert_eq!(ConfigGroup::standalone("Icon", "icon").rule, GroupRule::Standalone("icon"));
    assert_eq!(ConfigGroup::prefix("Label", "label-").title, "Label");
}
