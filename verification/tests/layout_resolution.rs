use wayle_config::bar::{BarItem, BarLayout, BarModule, ModuleRef};
use wayle_config::resolve::find_layout;

fn item(m: BarModule) -> BarItem {
    BarItem::Module(ModuleRef::Plain(m))
}

fn layout(monitor: &str, extends: Option<&str>, left: Vec<BarItem>, center: Vec<BarItem>, right: Vec<BarItem>) -> BarLayout {
    BarLayout {
        monitor: monitor.to_string(),
        extends: extends.map(|e| e.to_string()),
        show: true,
        left,
        center,
        right,
    }
}

#[test]
fn exact_match_wins_over_wildcard() {
    let layouts = vec![
        layout("*", None, vec![item(BarModule::Media)], vec![], vec![]),
        layout("DP-1", None, vec![item(BarModule::Cpu)], vec![], vec![]),
    ];
    let r = find_layout(&layouts, "DP-1").unwrap();
    assert_eq!(r.monitor, "DP-1");
    assert_eq!(r.left, vec![item(BarModule::Cpu)]);
}

#[test]
fn wildcard_is_fallback() {
    let layouts = vec![layout("*", None, vec![item(BarModule::Media)], vec![], vec![])];
    let r = find_layout(&layouts, "HDMI-A-1").unwrap();
    assert_eq!(r.monitor, "*");
    assert_eq!(r.left, vec![item(BarModule::Media)]);
}

#[test]
fn no_match_is_none() {
    let layouts = vec![layout("DP-1", None, vec![], vec![], vec![])];
    assert_eq!(find_layout(&layouts, "DP-2"), None);
    assert_eq!(find_layout(&[], "DP-2"), None);
}

#[test]
fn extends_fills_only_empty_sections() {
    let layouts = vec![
        layout(
            "*",
            None,
            vec![item(BarModule::Media)],
            vec![item(BarModule::Clock)],
            vec![item(BarModule::Volume)],
        ),
        layout("DP-1", Some("*"), vec![item(BarModule::Cpu)], vec![], vec![]),
    ];
    let r = find_layout(&layouts, "DP-1").unwrap();
    assert_eq!(r.monitor, "DP-1");
    assert_eq!(r.extends, Some(String::from("*")));
    assert_eq!(r.left, vec![item(BarModule::Cpu)]);
    assert_eq!(r.center, vec![item(BarModule::Clock)]);
    assert_eq!(r.right, vec![item(BarModule::Volume)]);
}

#[test]
fn extends_chain_is_followed() {
    let layouts = vec![
        layout("base", None, vec![], vec![], vec![item(BarModule::Power)]),
        layout("mid", Some("base"), vec![], vec![item(BarModule::Clock)], vec![]),
        layout("DP-1", Some("mid"), vec![item(BarModule::Ram)], vec![], vec![]),
    ];
    let r = find_layout(&layouts, "DP-1").unwrap();
    assert_eq!(r.left, vec![item(BarModule::Ram)]);
    assert_eq!(r.center, vec![item(BarModule::Clock)]);
    assert_eq!(r.right, vec![item(BarModule::Power)]);
}

#[test]
fn circular_extends_terminates() {
    let layouts = vec![
        layout("a", Some("b"), vec![], vec![item(BarModule::Clock)], vec![]),
        layout("b", Some("a"), vec![item(BarModule::Cpu)], vec![], vec![]),
    ];
    let r = find_layout(&layouts, "a").unwrap();
    assert_eq!(r.left, vec![item(BarModule::Cpu)]);
    assert_eq!(r.center, vec![item(BarModule::Clock)]);
    assert!(r.right.is_empty());
}

#[test]
fn missing_parent_keeps_layout() {
    let layouts = vec![layout("DP-1", Some("nowhere"), vec![], vec![], vec![])];
    let r = find_layout(&layouts, "DP-1").unwrap();
    assert!(r.left.is_empty() && r.center.is_empty() && r.right.is_empty());
}
