//! Notification popup settings and the grammar of the popup monitor.

use vstd::prelude::*;
use crate::text::{eq_ignore_ascii_case, eq_ignore_ascii_case_spec};

verus! {

/// Screen position for notification popups.
#[derive(Debug, Clone, Copy, Default, PartialEq, Eq, Structural)]
pub enum PopupPosition {
    /// Top-left corner.
    TopLeft,
    /// Top-center edge.
    TopCenter,
    /// Top-right corner.
    #[default]
    TopRight,
    /// Bottom-left corner.
    BottomLeft,
    /// Bottom-center edge.
    BottomCenter,
    /// Bottom-right corner.
    BottomRight,
    /// Center-left edge.
    CenterLeft,
    /// Center-right edge.
    CenterRight,
}

/// Order in which popups are stacked on screen.
#[derive(Debug, Clone, Copy, Default, PartialEq, Eq, Structural)]
pub enum StackingOrder {
    /// Newest notifications appear closest to the configured position.
    #[default]
    NewestFirst,
    /// Oldest notifications appear closest to the configured position.
    OldestFirst,
}

/// Behavior when the close button is clicked on a popup card.
#[derive(Debug, Clone, Copy, Default, PartialEq, Eq, Structural)]
pub enum PopupCloseBehavior {
    /// Hide the popup; notification stays in history.
    #[default]
    Dismiss,
    /// Remove the notification entirely.
    Remove,
}

/// Minimum urgency level that shows a colored urgency bar on popup cards.
#[derive(Debug, Clone, Copy, Default, PartialEq, Eq, Structural)]
pub enum UrgencyBarThreshold {
    /// Show urgency bars on all popups.
    #[default]
    Low,
    /// Show urgency bars on normal and critical popups.
    Normal,
    /// Show urgency bars on critical popups only.
    Critical,
    /// Never show urgency bars.
    Never,
}

/// Source for resolving notification icons.
#[derive(Debug, Clone, Copy, Default, PartialEq, Eq, Structural)]
pub enum IconSource {
    /// Use per-notification images when provided, otherwise the mapped icon.
    #[default]
    Automatic,
    /// Always use the mapped icons regardless of what the app provides.
    Mapped,
    /// Use the full application icon chain, falling back to mapped.
    Application,
}

/// Target monitor for notification popups: `"primary"` (in any ASCII case)
/// or a connector name like `"DP-1"`.
#[derive(Debug, Default, PartialEq, Eq)]
pub enum PopupMonitor {
    /// Use the first available monitor (primary).
    #[default]
    Primary,
    /// Use a specific monitor identified by connector name.
    Connector(String),
}

/// The abstract value of a popup monitor.
pub enum PopupMonitorView {
    /// The primary monitor.
    Primary,
    /// The named connector.
    Connector(Seq<char>),
}

impl View for PopupMonitor {
    type V = PopupMonitorView;

    open spec fn view(&self) -> PopupMonitorView {
        match *self {
            PopupMonitor::Primary => PopupMonitorView::Primary,
            PopupMonitor::Connector(n) => PopupMonitorView::Connector(n@),
        }
    }
}

/// The popup monitor that a config string denotes.
pub open spec fn parse_popup_monitor(s: Seq<char>) -> PopupMonitorView {
    if eq_ignore_ascii_case_spec(s, "primary"@) {
        PopupMonitorView::Primary
    } else {
        PopupMonitorView::Connector(s)
    }
}

/// The config string of a popup monitor.
pub open spec fn popup_monitor_string(m: PopupMonitorView) -> Seq<char> {
    match m {
        PopupMonitorView::Primary => "primary"@,
        PopupMonitorView::Connector(n) => n,
    }
}

impl PopupMonitor {
    /// Parses a popup monitor from its config string.
    pub fn parse_str(value: &str) -> (r: Self)
        ensures
            r@ == parse_popup_monitor(value@),
    {
        if eq_ignore_ascii_case(value, "primary") {
            PopupMonitor::Primary
        } else {
            PopupMonitor::Connector(value.to_owned())
        }
    }

    /// The string under which this monitor is written in the config.
    pub fn to_config_string(&self) -> (r: String)
        ensures
            r@ == popup_monitor_string(self@),
    {
        match self {
            PopupMonitor::Primary => String::from_str("primary"),
            PopupMonitor::Connector(name) => name.clone(),
        }
    }
}

/// A written popup monitor reads back as itself, unless it is a connector
/// whose name spells `primary` in some ASCII case; a read string is written
/// back unchanged unless it spells `primary` in some case, which is written
/// as `primary`.
pub proof fn law_popup_monitor_roundtrip(m: PopupMonitorView, s: Seq<char>)
    ensures
        !(m matches PopupMonitorView::Connector(n) && eq_ignore_ascii_case_spec(n, "primary"@))
            ==> parse_popup_monitor(popup_monitor_string(m)) == m,
        popup_monitor_string(parse_popup_monitor(s)) == if eq_ignore_ascii_case_spec(
            s,
            "primary"@,
        ) {
            "primary"@
        } else {
            s
        },
{
}

} // verus!
