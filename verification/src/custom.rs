//! User-defined custom bar modules: their definition, execution settings
//! and defaults.

use std::collections::HashMap;
use vstd::prelude::*;

verus! {

/// Execution mode for custom module commands.
#[derive(Debug, Clone, Copy, PartialEq, Eq, Default, Structural)]
pub enum ExecutionMode {
    /// Run command at regular intervals defined by `interval-ms`.
    #[default]
    Poll,
    /// Spawn long-running process and update display on each stdout line.
    Watch,
}

/// Restart behavior for watch-mode custom modules.
#[derive(Debug, Clone, Copy, PartialEq, Eq, Default, Structural)]
pub enum RestartPolicy {
    /// Never restart after exit.
    #[default]
    Never,
    /// Restart after any exit code (success or failure).
    OnExit,
    /// Restart only after non-zero exit codes or signal termination.
    OnFailure,
}

/// Where to place the ellipsis when a label is truncated.
#[derive(Debug, Clone, Copy, Default, PartialEq, Eq, Structural)]
pub enum LabelEllipsize {
    /// Truncate at the end.
    #[default]
    End,
    /// Truncate in the middle.
    Middle,
    /// Truncate at the start.
    Start,
}

/// The smallest restart delay in milliseconds.
pub const MIN_MS: u64 = 1;

/// Restart delay in milliseconds, at least 1.
#[derive(Debug, Clone, Copy, PartialEq, Eq)]
pub struct RestartDelay(u64);

impl RestartDelay {
    /// The stored delay.
    pub closed spec fn millis(self) -> u64 {
        self.0
    }

    #[verifier::type_invariant]
    spec fn in_range(self) -> bool {
        MIN_MS <= self.0
    }

    /// Creates a delay, clamping to >= 1ms.
    pub fn new(value: u64) -> (r: Self)
        ensures
            r.millis() == if value < MIN_MS {
                MIN_MS
            } else {
                value
            },
    {
        if value < MIN_MS {
            RestartDelay(MIN_MS)
        } else {
            RestartDelay(value)
        }
    }

    /// Returns the inner millisecond value.
    pub fn value(self) -> (r: u64)
        ensures
            r == self.millis(),
            MIN_MS <= r,
    {
        proof {
            use_type_invariant(&self);
        }
        self.0
    }
}

impl Default for RestartDelay {
    fn default() -> (r: Self)
        ensures
            r.millis() == 1000,
    {
        RestartDelay(1000)
    }
}

impl From<u64> for RestartDelay {
    fn from(value: u64) -> (r: Self)
        ensures
            r.millis() == if value < MIN_MS {
                MIN_MS
            } else {
                value
            },
    {
        RestartDelay::new(value)
    }
}

impl vstd::std_specs::convert::FromSpecImpl<u64> for RestartDelay {
    open spec fn obeys_from_spec() -> bool {
        true
    }

    closed spec fn from_spec(v: u64) -> Self {
        RestartDelay(if v < MIN_MS {
            MIN_MS
        } else {
            v
        })
    }
}

/// Custom module definition for user-defined bar modules. Colors are kept
/// in the form in which they are written in the config.
#[derive(Debug, PartialEq)]
pub struct CustomModuleDefinition {
    /// Unique identifier for this module.
    pub id: String,
    /// Shell command to execute.
    pub command: Option<String>,
    /// Execution mode.
    pub mode: ExecutionMode,
    /// Poll interval in milliseconds.
    pub interval_ms: u64,
    /// Restart behavior in watch mode.
    pub restart_policy: RestartPolicy,
    /// Delay before restarting.
    pub restart_interval_ms: RestartDelay,
    /// Label format string.
    pub format: String,
    /// Tooltip format string.
    pub tooltip_format: Option<String>,
    /// Hide the module when the output is empty.
    pub hide_if_empty: bool,
    /// Static icon name.
    pub icon_name: String,
    /// Icons indexed by percentage.
    pub icon_names: Option<Vec<String>>,
    /// Icons keyed by the `alt` field.
    pub icon_map: Option<HashMap<String, String>>,
    /// Format for dynamic CSS classes.
    pub class_format: Option<String>,
    /// Whether to show the icon.
    pub icon_show: bool,
    /// Icon color.
    pub icon_color: String,
    /// Icon container background color.
    pub icon_bg_color: String,
    /// Whether to show the label.
    pub label_show: bool,
    /// Label color.
    pub label_color: String,
    /// Maximum label length (0 for unlimited).
    pub label_max_length: u32,
    /// Where to truncate long labels.
    pub label_ellipsize: LabelEllipsize,
    /// Button background color.
    pub button_bg_color: String,
    /// Whether to show the border.
    pub border_show: bool,
    /// Border color.
    pub border_color: String,
    /// Left-click command.
    pub left_click: String,
    /// Right-click command.
    pub right_click: String,
    /// Middle-click command.
    pub middle_click: String,
    /// Scroll-up command.
    pub scroll_up: String,
    /// Scroll-down command.
    pub scroll_down: String,
    /// Command run after any action.
    pub on_action: Option<String>,
    /// Command listing the entries of the module's dropdown.
    pub dropdown_list_command: Option<String>,
    /// Command run when a dropdown entry is selected.
    pub dropdown_select_command: Option<String>,
}

/// The default poll interval in milliseconds.
pub fn default_interval() -> (r: u64)
    ensures
        r == 5000,
{
    5000
}

/// The default label format.
pub fn default_format() -> (r: String)
    ensures
        r@ == "{{ output }}"@,
{
    String::from_str("{{ output }}")
}

/// The default of the boolean fields that are on unless configured.
pub fn default_true() -> (r: bool)
    ensures
        r,
{
    true
}

} // verus!
