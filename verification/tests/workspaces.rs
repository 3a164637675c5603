use std::collections::{BTreeMap, HashMap};
use wayle_config::ext_workspaces::ExtWorkspaceMap;
use wayle_config::hyprland_workspaces::{ActiveIndicator, WorkspaceKeyError, WorkspaceMap, WorkspaceStyle};
use wayle_config::niri_workspaces::WorkspaceMap as NiriWorkspaceMap;

fn style(icon: &str) -> WorkspaceStyle {
    WorkspaceStyle { icon: Some(icon.to_string()), color: None }
}

#[test]
fn string_keys_become_ids() {
    let m = WorkspaceMap::from_string_keys(vec![
        (String::from("1"), style("a")),
        (String::from("-3"), style("b")),
    ])
    .unwrap();
    assert_eq!(m.len(), 2);
    assert_eq!(m.get(1), Some(&style("a")));
    assert_eq!(m.get(-3), Some(&style("b")));
    assert_eq!(m.get(2), None);
    assert_eq!(m.as_map().len(), 2);
}

#[test]
fn earlier_entry_wins_for_same_id() {
    let m = WorkspaceMap::from_string_keys(vec![
        (String::from("1"), style("first")),
        (String::from("+1"), style("second")),
    ])
    .unwrap();
    assert_eq!(m.len(), 1);
    assert_eq!(m.get(1), Some(&style("first")));
}

#[test]
fn bad_key_is_reported() {
    let e = WorkspaceMap::from_string_keys(vec![
        (String::from("1"), style("a")),
        (String::from("one"), style("b")),
    ])
    .unwrap_err();
    assert_eq!(e, WorkspaceKeyError { key: String::from("one") });
}

#[test]
fn empty_table() {
    let m = WorkspaceMap::from_string_keys(vec![]).unwrap();
    assert_eq!(m.len(), 0);
}

#[test]
fn other_maps_wrap_their_tables() {
    let mut h = HashMap::new();
    h.insert(String::from("dev"), style("x"));
    assert_eq!(NiriWorkspaceMap::new(h).as_map().len(), 1);
    let mut b = BTreeMap::new();
    b.insert(String::from("web"), style("y"));
    assert_eq!(ExtWorkspaceMap::new(b).as_map().get("web"), Some(&style("y")));
}

#[test]
fn active_indicator_classes() {
    assert_eq!(ActiveIndicator::Background.css_class(), "indicator-background");
}
