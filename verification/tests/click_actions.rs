use wayle_config::click_action::{collect_dropdown_names, ClickAction, DropdownSources};
use wayle_config::niri_workspaces::WorkspaceClickAction;
use wayle_config::notification::PopupMonitor;

#[test]
fn click_action_parsing() {
    assert_eq!(ClickAction::parse_str(""), ClickAction::NoAction);
    assert_eq!(ClickAction::parse_str("dropdown"), ClickAction::InlineDropdown);
    assert_eq!(
        ClickAction::parse_str("dropdown:audio"),
        ClickAction::Dropdown(String::from("audio"))
    );
    assert_eq!(
        ClickAction::parse_str("pavucontrol"),
        ClickAction::Shell(String::from("pavucontrol"))
    );
    assert_eq!(ClickAction::parse_str("dropdown:"), ClickAction::Dropdown(String::new()));
}

#[test]
fn click_action_printing() {
    assert_eq!(ClickAction::NoAction.to_config_string(), "");
    assert_eq!(ClickAction::InlineDropdown.to_config_string(), "dropdown");
    assert_eq!(ClickAction::Dropdown(String::from("audio")).to_config_string(), "dropdown:audio");
    assert_eq!(ClickAction::Shell(String::from("ls -la")).to_config_string(), "ls -la");
    assert_eq!(ClickAction::default(), ClickAction::NoAction);
}

#[test]
fn click_action_roundtrip() {
    for s in ["", "dropdown", "dropdown:battery", "notify-send hi"] {
        assert_eq!(ClickAction::parse_str(s).to_config_string(), s);
    }
}

#[test]
fn dropdown_names_in_order_without_duplicates() {
    let actions = vec![
        ClickAction::Dropdown(String::from("battery")),
        ClickAction::NoAction,
        ClickAction::Shell(String::from("x")),
        ClickAction::Dropdown(String::from("audio")),
        ClickAction::Dropdown(String::from("battery")),
        ClickAction::InlineDropdown,
    ];
    assert_eq!(
        collect_dropdown_names(&actions),
        vec![String::from("battery"), String::from("audio")]
    );
    assert_eq!(actions.dropdown_names(), vec![String::from("battery"), String::from("audio")]);
    assert_eq!(ClickAction::Dropdown(String::from("a")).dropdown_name(), Some("a"));
    assert_eq!(ClickAction::InlineDropdown.dropdown_name(), None);
}

#[test]
fn workspace_click_parsing() {
    assert_eq!(WorkspaceClickAction::from_str(""), WorkspaceClickAction::NoAction);
    assert_eq!(WorkspaceClickAction::from_str("focus:this"), WorkspaceClickAction::FocusWorkspace);
    assert_eq!(WorkspaceClickAction::from_str("focus:next"), WorkspaceClickAction::FocusNext);
    assert_eq!(WorkspaceClickAction::from_str("focus:previous"), WorkspaceClickAction::FocusPrevious);
    assert_eq!(WorkspaceClickAction::from_str("focus:last"), WorkspaceClickAction::FocusLast);
    assert_eq!(
        WorkspaceClickAction::from_str("dropdown:ws"),
        WorkspaceClickAction::Dropdown(String::from("ws"))
    );
    assert_eq!(
        WorkspaceClickAction::from_str("focus:other"),
        WorkspaceClickAction::Shell(String::from("focus:other"))
    );
}

#[test]
fn workspace_click_roundtrip() {
    for s in ["", "focus:this", "focus:next", "focus:previous", "focus:last", "dropdown:x", "echo"] {
        assert_eq!(WorkspaceClickAction::from_str(s).to_config_string(), s);
    }
}

#[test]
fn popup_monitor_parsing() {
    assert_eq!(PopupMonitor::parse_str("primary"), PopupMonitor::Primary);
    assert_eq!(PopupMonitor::parse_str("PRIMARY"), PopupMonitor::Primary);
    assert_eq!(
        PopupMonitor::parse_str("DP-1"),
        PopupMonitor::Connector(String::from("DP-1"))
    );
    assert_eq!(PopupMonitor::Primary.to_config_string(), "primary");
    assert_eq!(PopupMonitor::Connector(String::from("eDP-1")).to_config_string(), "eDP-1");
}
