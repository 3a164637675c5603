//! Bar layout types, the module-name grammar, CSS class names of the bar
//! enums, and the resolution of a monitor's effective layout.

use vstd::prelude::*;
use crate::property::opt_view;
use crate::text::{str_eq, strip_prefix};

verus! {

/// Available bar modules. Built-in modules use kebab-case names; custom
/// modules use the pattern `custom-<id>`.
#[derive(Debug, PartialEq, Eq, Hash)]
pub enum BarModule {
    /// Battery status and percentage.
    Battery,
    /// Bluetooth connection status and devices.
    Bluetooth,
    /// Audio frequency visualizer.
    Cava,
    /// Current time display.
    Clock,
    /// CPU usage and temperature.
    Cpu,
    /// CPU usage chart visualization.
    CpuChart,
    /// Quick access dashboard button.
    Dashboard,
    /// Compositor keybind mode indicator.
    KeybindMode,
    /// Hyprland workspace switcher.
    HyprlandWorkspaces,
    /// Idle inhibitor to prevent screen timeout.
    IdleInhibit,
    /// Hyprsunset (night light) toggle.
    Hyprsunset,
    /// Keyboard layout indicator.
    KeyboardInput,
    /// Media player controls.
    Media,
    /// Microphone mute status.
    Microphone,
    /// Network connection status.
    Network,
    /// Network traffic statistics.
    Netstat,
    /// Notification center button.
    Notifications,
    /// Power menu button.
    Power,
    /// RAM usage indicator.
    Ram,
    /// Visual separator between modules.
    Separator,
    /// Storage usage indicator.
    Storage,
    /// System tray icons.
    Systray,
    /// System updates indicator.
    Updates,
    /// Volume control.
    Volume,
    /// Weather conditions display.
    Weather,
    /// Active window title.
    WindowTitle,
    /// World clock with multiple timezones.
    WorldClock,
    /// User-defined custom module by ID.
    Custom(String),
}

/// The kebab-case name of a built-in module (empty for custom modules).
pub open spec fn kebab_name(m: BarModule) -> Seq<char> {
    match m {
        BarModule::Battery => "battery"@,
        BarModule::Bluetooth => "bluetooth"@,
        BarModule::Cava => "cava"@,
        BarModule::Clock => "clock"@,
        BarModule::Cpu => "cpu"@,
        BarModule::CpuChart => "cpu-chart"@,
        BarModule::Dashboard => "dashboard"@,
        BarModule::KeybindMode => "keybind-mode"@,
        BarModule::HyprlandWorkspaces => "hyprland-workspaces"@,
        BarModule::IdleInhibit => "idle-inhibit"@,
        BarModule::Hyprsunset => "hyprsunset"@,
        BarModule::KeyboardInput => "keyboard-input"@,
        BarModule::Media => "media"@,
        BarModule::Microphone => "microphone"@,
        BarModule::Network => "network"@,
        BarModule::Netstat => "netstat"@,
        BarModule::Notifications => "notifications"@,
        BarModule::Power => "power"@,
        BarModule::Ram => "ram"@,
        BarModule::Separator => "separator"@,
        BarModule::Storage => "storage"@,
        BarModule::Systray => "systray"@,
        BarModule::Updates => "updates"@,
        BarModule::Volume => "volume"@,
        BarModule::Weather => "weather"@,
        BarModule::WindowTitle => "window-title"@,
        BarModule::WorldClock => "world-clock"@,
        BarModule::Custom(_) => Seq::empty(),
    }
}

/// The built-in module whose kebab-case name is `s`, if any.
pub open spec fn builtin_from_name(s: Seq<char>) -> Option<BarModule> {
    if s == "battery"@ {
        Some(BarModule::Battery)
    } else if s == "bluetooth"@ {
        Some(BarModule::Bluetooth)
    } else if s == "cava"@ {
        Some(BarModule::Cava)
    } else if s == "clock"@ {
        Some(BarModule::Clock)
    } else if s == "cpu"@ {
        Some(BarModule::Cpu)
    } else if s == "cpu-chart"@ {
        Some(BarModule::CpuChart)
    } else if s == "dashboard"@ {
        Some(BarModule::Dashboard)
    } else if s == "keybind-mode"@ {
        Some(BarModule::KeybindMode)
    } else if s == "hyprland-workspaces"@ {
        Some(BarModule::HyprlandWorkspaces)
    } else if s == "idle-inhibit"@ {
        Some(BarModule::IdleInhibit)
    } else if s == "hyprsunset"@ {
        Some(BarModule::Hyprsunset)
    } else if s == "keyboard-input"@ {
        Some(BarModule::KeyboardInput)
    } else if s == "media"@ {
        Some(BarModule::Media)
    } else if s == "microphone"@ {
        Some(BarModule::Microphone)
    } else if s == "network"@ {
        Some(BarModule::Network)
    } else if s == "netstat"@ {
        Some(BarModule::Netstat)
    } else if s == "notifications"@ {
        Some(BarModule::Notifications)
    } else if s == "power"@ {
        Some(BarModule::Power)
    } else if s == "ram"@ {
        Some(BarModule::Ram)
    } else if s == "separator"@ {
        Some(BarModule::Separator)
    } else if s == "storage"@ {
        Some(BarModule::Storage)
    } else if s == "systray"@ {
        Some(BarModule::Systray)
    } else if s == "updates"@ {
        Some(BarModule::Updates)
    } else if s == "volume"@ {
        Some(BarModule::Volume)
    } else if s == "weather"@ {
        Some(BarModule::Weather)
    } else if s == "window-title"@ {
        Some(BarModule::WindowTitle)
    } else if s == "world-clock"@ {
        Some(BarModule::WorldClock)
    } else {
        None
    }
}

/// The prefix of custom module names.
pub open spec fn custom_prefix() -> Seq<char> {
    "custom-"@
}

/// The name under which a module is written in the config and shown.
pub open spec fn config_name(m: BarModule) -> Seq<char> {
    match m {
        BarModule::Custom(id) => custom_prefix() + id@,
        _ => kebab_name(m),
    }
}

/// Whether `s` names a module: a built-in name, or `custom-` followed by a
/// non-empty id.
pub open spec fn valid_module_name(s: Seq<char>) -> bool {
    if custom_prefix().is_prefix_of(s) {
        s.len() > custom_prefix().len()
    } else {
        builtin_from_name(s) is Some
    }
}

/// Whether a module can be written in the config: any built-in module, or a
/// custom module with a non-empty id.
pub open spec fn writable_module(m: BarModule) -> bool {
    match m {
        BarModule::Custom(id) => id@.len() > 0,
        _ => true,
    }
}

/// Why a module name was rejected.
#[derive(Debug, PartialEq, Eq)]
pub enum BarModuleNameError {
    /// `custom-` with nothing after it.
    EmptyCustomId,
    /// Neither a built-in module nor a custom module.
    UnknownModule(String),
}

impl View for BarModule {
    type V = Seq<char>;

    /// A module is identified by its config name.
    open spec fn view(&self) -> Seq<char> {
        config_name(*self)
    }
}

impl BarModule {
    /// A copy of this module.
    pub fn duplicate(&self) -> (r: Self)
        ensures
            r == *self,
    {
        match self {
            BarModule::Battery => BarModule::Battery,
            BarModule::Bluetooth => BarModule::Bluetooth,
            BarModule::Cava => BarModule::Cava,
            BarModule::Clock => BarModule::Clock,
            BarModule::Cpu => BarModule::Cpu,
            BarModule::CpuChart => BarModule::CpuChart,
            BarModule::Dashboard => BarModule::Dashboard,
            BarModule::KeybindMode => BarModule::KeybindMode,
            BarModule::HyprlandWorkspaces => BarModule::HyprlandWorkspaces,
            BarModule::IdleInhibit => BarModule::IdleInhibit,
            BarModule::Hyprsunset => BarModule::Hyprsunset,
            BarModule::KeyboardInput => BarModule::KeyboardInput,
            BarModule::Media => BarModule::Media,
            BarModule::Microphone => BarModule::Microphone,
            BarModule::Network => BarModule::Network,
            BarModule::Netstat => BarModule::Netstat,
            BarModule::Notifications => BarModule::Notifications,
            BarModule::Power => BarModule::Power,
            BarModule::Ram => BarModule::Ram,
            BarModule::Separator => BarModule::Separator,
            BarModule::Storage => BarModule::Storage,
            BarModule::Systray => BarModule::Systray,
            BarModule::Updates => BarModule::Updates,
            BarModule::Volume => BarModule::Volume,
            BarModule::Weather => BarModule::Weather,
            BarModule::WindowTitle => BarModule::WindowTitle,
            BarModule::WorldClock => BarModule::WorldClock,
            BarModule::Custom(id) => BarModule::Custom(id.clone()),
        }
    }

    fn to_kebab_case(&self) -> (r: &'static str)
        requires
            !(*self is Custom),
        ensures
            r@ == kebab_name(*self),
    {
        match self {
            BarModule::Battery => "battery",
            BarModule::Bluetooth => "bluetooth",
            BarModule::Cava => "cava",
            BarModule::Clock => "clock",
            BarModule::Cpu => "cpu",
            BarModule::CpuChart => "cpu-chart",
            BarModule::Dashboard => "dashboard",
            BarModule::KeybindMode => "keybind-mode",
            BarModule::HyprlandWorkspaces => "hyprland-workspaces",
            BarModule::IdleInhibit => "idle-inhibit",
            BarModule::Hyprsunset => "hyprsunset",
            BarModule::KeyboardInput => "keyboard-input",
            BarModule::Media => "media",
            BarModule::Microphone => "microphone",
            BarModule::Network => "network",
            BarModule::Netstat => "netstat",
            BarModule::Notifications => "notifications",
            BarModule::Power => "power",
            BarModule::Ram => "ram",
            BarModule::Separator => "separator",
            BarModule::Storage => "storage",
            BarModule::Systray => "systray",
            BarModule::Updates => "updates",
            BarModule::Volume => "volume",
            BarModule::Weather => "weather",
            BarModule::WindowTitle => "window-title",
            BarModule::WorldClock => "world-clock",
            BarModule::Custom(_) => {
                proof {
                    assert(false);
                }
                ""
            },
        }
    }

    fn from_kebab_case(s: &str) -> (r: Option<Self>)
        ensures
            r == builtin_from_name(s@),
    {
        if str_eq(s, "battery") {
            Some(BarModule::Battery)
        } else if str_eq(s, "bluetooth") {
            Some(BarModule::Bluetooth)
        } else if str_eq(s, "cava") {
            Some(BarModule::Cava)
        } else if str_eq(s, "clock") {
            Some(BarModule::Clock)
        } else if str_eq(s, "cpu") {
            Some(BarModule::Cpu)
        } else if str_eq(s, "cpu-chart") {
            Some(BarModule::CpuChart)
        } else if str_eq(s, "dashboard") {
            Some(BarModule::Dashboard)
        } else if str_eq(s, "keybind-mode") {
            Some(BarModule::KeybindMode)
        } else if str_eq(s, "hyprland-workspaces") {
            Some(BarModule::HyprlandWorkspaces)
        } else if str_eq(s, "idle-inhibit") {
            Some(BarModule::IdleInhibit)
        } else if str_eq(s, "hyprsunset") {
            Some(BarModule::Hyprsunset)
        } else if str_eq(s, "keyboard-input") {
            Some(BarModule::KeyboardInput)
        } else if str_eq(s, "media") {
            Some(BarModule::Media)
        } else if str_eq(s, "microphone") {
            Some(BarModule::Microphone)
        } else if str_eq(s, "network") {
            Some(BarModule::Network)
        } else if str_eq(s, "netstat") {
            Some(BarModule::Netstat)
        } else if str_eq(s, "notifications") {
            Some(BarModule::Notifications)
        } else if str_eq(s, "power") {
            Some(BarModule::Power)
        } else if str_eq(s, "ram") {
            Some(BarModule::Ram)
        } else if str_eq(s, "separator") {
            Some(BarModule::Separator)
        } else if str_eq(s, "storage") {
            Some(BarModule::Storage)
        } else if str_eq(s, "systray") {
            Some(BarModule::Systray)
        } else if str_eq(s, "updates") {
            Some(BarModule::Updates)
        } else if str_eq(s, "volume") {
            Some(BarModule::Volume)
        } else if str_eq(s, "weather") {
            Some(BarModule::Weather)
        } else if str_eq(s, "window-title") {
            Some(BarModule::WindowTitle)
        } else if str_eq(s, "world-clock") {
            Some(BarModule::WorldClock)
        } else {
            None
        }
    }

    /// The name under which this module is written in the config and shown
    /// to the user (`custom-<id>` for custom modules).
    pub fn to_config_name(&self) -> (r: String)
        ensures
            r@ == config_name(*self),
    {
        match self {
            BarModule::Custom(id) => String::from_str("custom-").concat(id.as_str()),
            _ => String::from_str(self.to_kebab_case()),
        }
    }

    /// Parses a module name as written in the config.
    pub fn parse_config_name(s: &str) -> (r: Result<Self, BarModuleNameError>)
        ensures
            r is Ok == valid_module_name(s@),
            r matches Ok(m) ==> m@ == s@ && (m is Custom <==> custom_prefix().is_prefix_of(s@)),
            (custom_prefix().is_prefix_of(s@) && s@.len() == custom_prefix().len()) ==> r
                == Err::<BarModule, BarModuleNameError>(BarModuleNameError::EmptyCustomId),
            (!custom_prefix().is_prefix_of(s@) && builtin_from_name(s@) is None) ==> (r matches Err(
                BarModuleNameError::UnknownModule(name),
            ) && name@ == s@),
    {
        if let Some(id) = strip_prefix(s, "custom-") {
            if id.unicode_len() == 0 {
                return Err(BarModuleNameError::EmptyCustomId);
            }
            let m = BarModule::Custom(id.to_owned());
            assert(m@ =~= s@);
            return Ok(m);
        }
        match BarModule::from_kebab_case(s) {
            Some(m) => Ok(m),
            None => Err(BarModuleNameError::UnknownModule(s.to_owned())),
        }
    }

    /// Returns the custom module ID if this is a custom module.
    pub fn custom_id(&self) -> (r: Option<&str>)
        ensures
            match *self {
                BarModule::Custom(id) => r matches Some(x) && x@ == id@,
                _ => r is None,
            },
    {
        match self {
            BarModule::Custom(id) => Some(id.as_str()),
            _ => None,
        }
    }
}

/// A module with an associated CSS class for custom styling.
#[derive(Debug, PartialEq, Eq)]
pub struct ClassedModule {
    /// The module type.
    pub module: BarModule,
    /// CSS class added to the module's widget.
    pub class: String,
}

/// Reference to a module, optionally with a custom CSS class.
#[derive(Debug, PartialEq, Eq)]
pub enum ModuleRef {
    /// Module with a custom CSS class.
    Classed(ClassedModule),
    /// Plain module reference.
    Plain(BarModule),
}

impl ModuleRef {
    /// A copy of this reference.
    pub fn duplicate(&self) -> (r: Self)
        ensures
            r == *self,
    {
        match self {
            ModuleRef::Classed(c) => ModuleRef::Classed(
                ClassedModule { module: c.module.duplicate(), class: c.class.clone() },
            ),
            ModuleRef::Plain(m) => ModuleRef::Plain(m.duplicate()),
        }
    }

    /// Returns the underlying module type.
    pub fn module(&self) -> (r: &BarModule)
        ensures
            *r == match *self {
                ModuleRef::Plain(m) => m,
                ModuleRef::Classed(c) => c.module,
            },
    {
        match self {
            ModuleRef::Plain(m) => m,
            ModuleRef::Classed(c) => &c.module,
        }
    }

    /// Returns the custom CSS class, if any.
    pub fn class(&self) -> (r: Option<&str>)
        ensures
            match *self {
                ModuleRef::Plain(_) => r is None,
                ModuleRef::Classed(c) => r matches Some(x) && x@ == c.class@,
            },
    {
        match self {
            ModuleRef::Plain(_) => None,
            ModuleRef::Classed(c) => Some(c.class.as_str()),
        }
    }
}

/// Copies a list of module references.
pub fn copy_module_refs(v: &Vec<ModuleRef>) -> (r: Vec<ModuleRef>)
    ensures
        r@ == v@,
{
    let mut r: Vec<ModuleRef> = Vec::new();
    let mut i: usize = 0;
    while i < v.len()
        invariant
            i <= v.len(),
            r@ == v@.subrange(0, i as int),
        decreases v.len() - i,
    {
        r.push(v[i].duplicate());
        i = i + 1;
    }
    assert(r@ =~= v@);
    r
}

/// Named group of modules. The name becomes a CSS ID selector.
#[derive(Debug, PartialEq)]
pub struct BarGroup {
    /// Unique name for CSS targeting.
    pub name: String,
    /// Modules contained in this group.
    pub modules: Vec<ModuleRef>,
}

/// A bar item: either a standalone module or a named group of modules.
#[derive(Debug, PartialEq)]
pub enum BarItem {
    /// A single module (plain or with custom CSS class).
    Module(ModuleRef),
    /// A named group of modules with shared visual container.
    Group(BarGroup),
}

/// The abstract value of a bar item.
pub enum BarItemView {
    /// A single module.
    Module(ModuleRef),
    /// A group: its name and its modules.
    Group(Seq<char>, Seq<ModuleRef>),
}

impl View for BarItem {
    type V = BarItemView;

    open spec fn view(&self) -> BarItemView {
        match *self {
            BarItem::Module(m) => BarItemView::Module(m),
            BarItem::Group(g) => BarItemView::Group(g.name@, g.modules@),
        }
    }
}

/// The abstract values of a list of bar items.
pub open spec fn items_view(s: Seq<BarItem>) -> Seq<BarItemView> {
    s.map_values(|i: BarItem| i@)
}

impl BarItem {
    /// A copy of this item.
    pub fn duplicate(&self) -> (r: Self)
        ensures
            r@ == self@,
    {
        match self {
            BarItem::Module(m) => BarItem::Module(m.duplicate()),
            BarItem::Group(g) => BarItem::Group(
                BarGroup { name: g.name.clone(), modules: copy_module_refs(&g.modules) },
            ),
        }
    }
}

/// Copies a list of bar items.
pub fn copy_items(v: &Vec<BarItem>) -> (r: Vec<BarItem>)
    ensures
        items_view(r@) == items_view(v@),
{
    let mut r: Vec<BarItem> = Vec::new();
    let mut i: usize = 0;
    while i < v.len()
        invariant
            i <= v.len(),
            items_view(r@) == items_view(v@.subrange(0, i as int)),
        decreases v.len() - i,
    {
        let item = v[i].duplicate();
        proof {
            assert(items_view(v@.subrange(0, i + 1)) =~= items_view(v@.subrange(0, i as int)).push(
                item@,
            ));
            assert(items_view(r@.push(item)) =~= items_view(r@).push(item@));
        }
        r.push(item);
        i = i + 1;
    }
    assert(v@.subrange(0, v@.len() as int) =~= v@);
    r
}

/// Layout configuration for a bar on a specific monitor.
#[derive(Debug, PartialEq)]
pub struct BarLayout {
    /// Monitor connector name (e.g., `"DP-1"`) or `"*"` for all monitors.
    pub monitor: String,
    /// Inherit from another layout by its monitor value (e.g., `"*"`).
    pub extends: Option<String>,
    /// Whether the bar is visible on this monitor.
    pub show: bool,
    /// Modules in the left section.
    pub left: Vec<BarItem>,
    /// Modules in the center section.
    pub center: Vec<BarItem>,
    /// Modules in the right section.
    pub right: Vec<BarItem>,
}

/// The abstract value of a bar layout.
pub struct BarLayoutView {
    /// Monitor connector name or `"*"`.
    pub monitor: Seq<char>,
    /// The monitor value of the layout it inherits from.
    pub extends: Option<Seq<char>>,
    /// Whether the bar is visible.
    pub show: bool,
    /// Left section.
    pub left: Seq<BarItemView>,
    /// Center section.
    pub center: Seq<BarItemView>,
    /// Right section.
    pub right: Seq<BarItemView>,
}

impl View for BarLayout {
    type V = BarLayoutView;

    open spec fn view(&self) -> BarLayoutView {
        BarLayoutView {
            monitor: self.monitor@,
            extends: opt_view(self.extends),
            show: self.show,
            left: items_view(self.left@),
            center: items_view(self.center@),
            right: items_view(self.right@),
        }
    }
}

fn plain_item(m: BarModule) -> (r: BarItem)
    ensures
        r@ == BarItemView::Module(ModuleRef::Plain(m)),
{
    BarItem::Module(ModuleRef::Plain(m))
}

impl BarLayout {
    /// A copy of this layout.
    pub fn duplicate(&self) -> (r: Self)
        ensures
            r@ == self@,
    {
        let extends = match &self.extends {
            Some(e) => Some(e.clone()),
            None => None,
        };
        BarLayout {
            monitor: self.monitor.clone(),
            extends,
            show: self.show,
            left: copy_items(&self.left),
            center: copy_items(&self.center),
            right: copy_items(&self.right),
        }
    }
}

impl Default for BarLayout {
    /// The stock layout: media on the left, the clock in the center and the
    /// status modules on the right, on every monitor.
    fn default() -> (r: Self)
        ensures
            r@ == (BarLayoutView {
                monitor: "*"@,
                extends: None,
                show: true,
                left: seq![BarItemView::Module(ModuleRef::Plain(BarModule::Media))],
                center: seq![BarItemView::Module(ModuleRef::Plain(BarModule::Clock))],
                right: seq![
                    BarItemView::Module(ModuleRef::Plain(BarModule::Battery)),
                    BarItemView::Module(ModuleRef::Plain(BarModule::Bluetooth)),
                    BarItemView::Module(ModuleRef::Plain(BarModule::Network)),
                    BarItemView::Module(ModuleRef::Plain(BarModule::Microphone)),
                    BarItemView::Module(ModuleRef::Plain(BarModule::Volume)),
                ],
            }),
    {
        let mut left: Vec<BarItem> = Vec::new();
        left.push(plain_item(BarModule::Media));
        let mut center: Vec<BarItem> = Vec::new();
        center.push(plain_item(BarModule::Clock));
        let mut right: Vec<BarItem> = Vec::new();
        right.push(plain_item(BarModule::Battery));
        right.push(plain_item(BarModule::Bluetooth));
        right.push(plain_item(BarModule::Network));
        right.push(plain_item(BarModule::Microphone));
        right.push(plain_item(BarModule::Volume));
        let r = BarLayout {
            monitor: String::from_str("*"),
            extends: None,
            show: true,
            left,
            center,
            right,
        };
        assert(items_view(r.left@) =~= seq![
            BarItemView::Module(ModuleRef::Plain(BarModule::Media)),
        ]);
        assert(items_view(r.center@) =~= seq![
            BarItemView::Module(ModuleRef::Plain(BarModule::Clock)),
        ]);
        assert(items_view(r.right@) =~= seq![
            BarItemView::Module(ModuleRef::Plain(BarModule::Battery)),
            BarItemView::Module(ModuleRef::Plain(BarModule::Bluetooth)),
            BarItemView::Module(ModuleRef::Plain(BarModule::Network)),
            BarItemView::Module(ModuleRef::Plain(BarModule::Microphone)),
            BarItemView::Module(ModuleRef::Plain(BarModule::Volume)),
        ]);
        r
    }
}

/// Bar position on screen.
#[derive(Debug, Clone, Copy, PartialEq, Eq, Hash, Structural)]
pub enum Location {
    /// Top edge of the screen.
    Top,
    /// Bottom edge of the screen.
    Bottom,
    /// Left edge of the screen.
    Left,
    /// Right edge of the screen.
    Right,
}

impl Location {
    /// CSS class name for this location.
    pub fn css_class(self) -> (r: &'static str)
        ensures
            r@ == match self {
                Location::Top => "top"@,
                Location::Bottom => "bottom"@,
                Location::Left => "left"@,
                Location::Right => "right"@,
            },
    {
        match self {
            Location::Top => "top",
            Location::Bottom => "bottom",
            Location::Left => "left",
            Location::Right => "right",
        }
    }

    /// Whether this location results in a vertical bar layout.
    pub fn is_vertical(self) -> (r: bool)
        ensures
            r == (self == Location::Left || self == Location::Right),
    {
        match self {
            Location::Left | Location::Right => true,
            _ => false,
        }
    }
}

/// Border placement for bar buttons.
#[derive(Debug, Default, Clone, Copy, PartialEq, Eq, Hash, Structural)]
pub enum BorderLocation {
    /// No border.
    #[default]
    NoBorder,
    /// Border on top edge only.
    Top,
    /// Border on bottom edge only.
    Bottom,
    /// Border on left edge only.
    Left,
    /// Border on right edge only.
    Right,
    /// Border on all edges.
    All,
}

impl BorderLocation {
    /// CSS class suffix for this border location.
    pub fn css_class(self) -> (r: Option<&'static str>)
        ensures
            match self {
                BorderLocation::NoBorder => r is None,
                BorderLocation::Top => r matches Some(c) && c@ == "border-top"@,
                BorderLocation::Bottom => r matches Some(c) && c@ == "border-bottom"@,
                BorderLocation::Left => r matches Some(c) && c@ == "border-left"@,
                BorderLocation::Right => r matches Some(c) && c@ == "border-right"@,
                BorderLocation::All => r matches Some(c) && c@ == "border-all"@,
            },
    {
        match self {
            BorderLocation::NoBorder => None,
            BorderLocation::Top => Some("border-top"),
            BorderLocation::Bottom => Some("border-bottom"),
            BorderLocation::Left => Some("border-left"),
            BorderLocation::Right => Some("border-right"),
            BorderLocation::All => Some("border-all"),
        }
    }
}

/// Visual style variants for bar buttons.
#[derive(Debug, Default, Clone, Copy, PartialEq, Eq, Hash, Structural)]
pub enum BarButtonVariant {
    /// Icon + label, minimal background.
    #[default]
    Basic,
    /// Icon in colored pill container that blends into button edge.
    BlockPrefix,
    /// Button background with colored icon container inside.
    IconSquare,
}

impl BarButtonVariant {
    /// CSS class name for this variant.
    pub fn css_class(self) -> (r: &'static str)
        ensures
            r@ == match self {
                BarButtonVariant::Basic => "basic"@,
                BarButtonVariant::BlockPrefix => "block-prefix"@,
                BarButtonVariant::IconSquare => "icon-square"@,
            },
    {
        match self {
            BarButtonVariant::Basic => "basic",
            BarButtonVariant::BlockPrefix => "block-prefix",
            BarButtonVariant::IconSquare => "icon-square",
        }
    }
}

/// Icon position within bar buttons.
#[derive(Debug, Default, Clone, Copy, PartialEq, Eq, Hash, Structural)]
pub enum IconPosition {
    /// Icon before label.
    #[default]
    Start,
    /// Icon after label.
    End,
}

impl IconPosition {
    /// CSS class for this position, if any.
    pub fn css_class(self) -> (r: Option<&'static str>)
        ensures
            match self {
                IconPosition::Start => r is None,
                IconPosition::End => r matches Some(c) && c@ == "icon-end"@,
            },
    {
        match self {
            IconPosition::Start => None,
            IconPosition::End => Some("icon-end"),
        }
    }
}

/// Shadow style for the bar.
#[derive(Debug, Default, Clone, Copy, PartialEq, Eq, Hash, Structural)]
pub enum ShadowPreset {
    /// No shadow.
    #[default]
    NoShadow,
    /// Directional shadow opposite the anchor edge.
    Drop,
    /// All-around shadow.
    Floating,
}

/// The margin a shadow preset needs to render without clipping.
pub open spec fn shadow_margin(p: ShadowPreset) -> u32 {
    match p {
        ShadowPreset::NoShadow => 0,
        ShadowPreset::Drop => 4,
        ShadowPreset::Floating => 4,
    }
}

impl ShadowPreset {
    /// Margin in pixels needed for this shadow to render without clipping.
    pub fn margin_px(self) -> (r: u32)
        ensures
            r == shadow_margin(self),
    {
        match self {
            ShadowPreset::NoShadow => 0,
            ShadowPreset::Drop => 4,
            ShadowPreset::Floating => 4,
        }
    }

    /// CSS box-shadow value based on bar position.
    pub fn css_shadow(self, location: Location) -> (r: &'static str)
        ensures
            r@ == match self {
                ShadowPreset::NoShadow => "none"@,
                ShadowPreset::Drop => match location {
                    Location::Top => "0 1px 2px 1px rgba(0, 0, 0, 0.25)"@,
                    Location::Bottom => "0 -1px 2px 1px rgba(0, 0, 0, 0.25)"@,
                    Location::Left => "1px 0 2px 1px rgba(0, 0, 0, 0.25)"@,
                    Location::Right => "-1px 0 2px 1px rgba(0, 0, 0, 0.25)"@,
                },
                ShadowPreset::Floating => "0 1px 2px 1px rgba(0, 0, 0, 0.25)"@,
            },
    {
        match self {
            ShadowPreset::NoShadow => "none",
            ShadowPreset::Drop => match location {
                Location::Top => "0 1px 2px 1px rgba(0, 0, 0, 0.25)",
                Location::Bottom => "0 -1px 2px 1px rgba(0, 0, 0, 0.25)",
                Location::Left => "1px 0 2px 1px rgba(0, 0, 0, 0.25)",
                Location::Right => "-1px 0 2px 1px rgba(0, 0, 0, 0.25)",
            },
            ShadowPreset::Floating => "0 1px 2px 1px rgba(0, 0, 0, 0.25)",
        }
    }

    /// Margin in pixels for the edge opposite to the anchor where shadow
    /// extends.
    pub fn opposite_margin(self) -> (r: u32)
        ensures
            r == shadow_margin(self),
    {
        self.margin_px()
    }
}

/// The kebab-case name of a built-in module names that module.
proof fn lemma_builtin_name_roundtrip(m: BarModule)
    requires
        !(m is Custom),
    ensures
        builtin_from_name(kebab_name(m)) == Some(m),
        kebab_name(m).len() < 7 || kebab_name(m)[0] != 'c' || kebab_name(m)[1] != 'u',
{
    reveal_strlit("battery");
    reveal_strlit("bluetooth");
    reveal_strlit("cava");
    reveal_strlit("clock");
    reveal_strlit("cpu");
    reveal_strlit("cpu-chart");
    reveal_strlit("dashboard");
    reveal_strlit("keybind-mode");
    reveal_strlit("hyprland-workspaces");
    reveal_strlit("idle-inhibit");
    reveal_strlit("hyprsunset");
    reveal_strlit("keyboard-input");
    reveal_strlit("media");
    reveal_strlit("microphone");
    reveal_strlit("network");
    reveal_strlit("netstat");
    reveal_strlit("notifications");
    reveal_strlit("power");
    reveal_strlit("ram");
    reveal_strlit("separator");
    reveal_strlit("storage");
    reveal_strlit("systray");
    reveal_strlit("updates");
    reveal_strlit("volume");
    reveal_strlit("weather");
    reveal_strlit("window-title");
    reveal_strlit("world-clock");
    assert("battery"@.len() == 7);
    assert("bluetooth"@.len() == 9);
    assert("cava"@.len() == 4);
    assert("clock"@.len() == 5);
    assert("cpu"@.len() == 3);
    assert("cpu-chart"@.len() == 9);
    assert("dashboard"@.len() == 9);
    assert("keybind-mode"@.len() == 12);
    assert("hyprland-workspaces"@.len() == 19);
    assert("idle-inhibit"@.len() == 12);
    assert("hyprsunset"@.len() == 10);
    assert("keyboard-input"@.len() == 14);
    assert("media"@.len() == 5);
    assert("microphone"@.len() == 10);
    assert("network"@.len() == 7);
    assert("netstat"@.len() == 7);
    assert("notifications"@.len() == 13);
    assert("power"@.len() == 5);
    assert("ram"@.len() == 3);
    assert("separator"@.len() == 9);
    assert("storage"@.len() == 7);
    assert("systray"@.len() == 7);
    assert("updates"@.len() == 7);
    assert("volume"@.len() == 6);
    assert("weather"@.len() == 7);
    assert("window-title"@.len() == 12);
    assert("world-clock"@.len() == 11);
    assert("battery"@[0] == 'b');
    assert("bluetooth"@[0] == 'b');
    assert("clock"@[0] == 'c');
    assert("cpu"@[0] == 'c');
    assert("cpu-chart"@[0] == 'c');
    assert("dashboard"@[0] == 'd');
    assert("keybind-mode"@[0] == 'k');
    assert("idle-inhibit"@[0] == 'i');
    assert("hyprsunset"@[0] == 'h');
    assert("media"@[0] == 'm');
    assert("microphone"@[0] == 'm');
    assert("network"@[0] == 'n');
    assert("netstat"@[0] == 'n');
    assert("power"@[0] == 'p');
    assert("ram"@[0] == 'r');
    assert("separator"@[0] == 's');
    assert("storage"@[0] == 's');
    assert("systray"@[0] == 's');
    assert("updates"@[0] == 'u');
    assert("weather"@[0] == 'w');
    assert("window-title"@[0] == 'w');
    assert("network"@[3] == 'w');
    assert("netstat"@[3] == 's');
    assert("storage"@[1] == 't');
    assert("systray"@[1] == 'y');
    assert("hyprland-workspaces"@[0] == 'h');
    assert("keyboard-input"@[0] == 'k');
    assert("notifications"@[0] == 'n');
    assert("world-clock"@[0] == 'w');
    assert("cpu-chart"@[1] == 'p');
}

/// Printing then parsing: the config name of every writable module is a
/// valid module name that parses back to a module of the same kind, and a
/// built-in module's name parses back to that very module.
pub proof fn law_module_name_roundtrip(m: BarModule)
    requires
        writable_module(m),
    ensures
        valid_module_name(config_name(m)),
        custom_prefix().is_prefix_of(config_name(m)) <==> m is Custom,
        !(m is Custom) ==> builtin_from_name(config_name(m)) == Some(m),
{
    reveal_strlit("custom-");
    match m {
        BarModule::Custom(id) => {
            assert(custom_prefix().len() == 7);
            assert(config_name(m) == custom_prefix() + id@);
            assert((custom_prefix() + id@).subrange(0, 7) =~= custom_prefix());
            assert(custom_prefix().is_prefix_of(config_name(m)));
        },
        _ => {
            lemma_builtin_name_roundtrip(m);
            let s = config_name(m);
            if s.len() >= 7 {
                assert(s[0] != custom_prefix()[0] || s[1] != custom_prefix()[1]);
                assert(s.subrange(0, 7)[0] == s[0]);
                assert(s.subrange(0, 7)[1] == s[1]);
            }
        },
    }
}

/// The name of each built-in module, as written in the config and shown to
/// the user, is fixed: each module is written under its own kebab-case name,
/// and that name reads back as that module.
pub proof fn law_builtin_module_names()
    ensures
        config_name(BarModule::Battery) == "battery"@,
        builtin_from_name("battery"@) == Some(BarModule::Battery),
        config_name(BarModule::Bluetooth) == "bluetooth"@,
        builtin_from_name("bluetooth"@) == Some(BarModule::Bluetooth),
        config_name(BarModule::Cava) == "cava"@,
        builtin_from_name("cava"@) == Some(BarModule::Cava),
        config_name(BarModule::Clock) == "clock"@,
        builtin_from_name("clock"@) == Some(BarModule::Clock),
        config_name(BarModule::Cpu) == "cpu"@,
        builtin_from_name("cpu"@) == Some(BarModule::Cpu),
        config_name(BarModule::CpuChart) == "cpu-chart"@,
        builtin_from_name("cpu-chart"@) == Some(BarModule::CpuChart),
        config_name(BarModule::Dashboard) == "dashboard"@,
        builtin_from_name("dashboard"@) == Some(BarModule::Dashboard),
        config_name(BarModule::KeybindMode) == "keybind-mode"@,
        builtin_from_name("keybind-mode"@) == Some(BarModule::KeybindMode),
        config_name(BarModule::HyprlandWorkspaces) == "hyprland-workspaces"@,
        builtin_from_name("hyprland-workspaces"@) == Some(BarModule::HyprlandWorkspaces),
        config_name(BarModule::IdleInhibit) == "idle-inhibit"@,
        builtin_from_name("idle-inhibit"@) == Some(BarModule::IdleInhibit),
        config_name(BarModule::Hyprsunset) == "hyprsunset"@,
        builtin_from_name("hyprsunset"@) == Some(BarModule::Hyprsunset),
        config_name(BarModule::KeyboardInput) == "keyboard-input"@,
        builtin_from_name("keyboard-input"@) == Some(BarModule::KeyboardInput),
        config_name(BarModule::Media) == "media"@,
        builtin_from_name("media"@) == Some(BarModule::Media),
        config_name(BarModule::Microphone) == "microphone"@,
        builtin_from_name("microphone"@) == Some(BarModule::Microphone),
        config_name(BarModule::Network) == "network"@,
        builtin_from_name("network"@) == Some(BarModule::Network),
        config_name(BarModule::Netstat) == "netstat"@,
        builtin_from_name("netstat"@) == Some(BarModule::Netstat),
        config_name(BarModule::Notifications) == "notifications"@,
        builtin_from_name("notifications"@) == Some(BarModule::Notifications),
        config_name(BarModule::Power) == "power"@,
        builtin_from_name("power"@) == Some(BarModule::Power),
        config_name(BarModule::Ram) == "ram"@,
        builtin_from_name("ram"@) == Some(BarModule::Ram),
        config_name(BarModule::Separator) == "separator"@,
        builtin_from_name("separator"@) == Some(BarModule::Separator),
        config_name(BarModule::Storage) == "storage"@,
        builtin_from_name("storage"@) == Some(BarModule::Storage),
        config_name(BarModule::Systray) == "systray"@,
        builtin_from_name("systray"@) == Some(BarModule::Systray),
        config_name(BarModule::Updates) == "updates"@,
        builtin_from_name("updates"@) == Some(BarModule::Updates),
        config_name(BarModule::Volume) == "volume"@,
        builtin_from_name("volume"@) == Some(BarModule::Volume),
        config_name(BarModule::Weather) == "weather"@,
        builtin_from_name("weather"@) == Some(BarModule::Weather),
        config_name(BarModule::WindowTitle) == "window-title"@,
        builtin_from_name("window-title"@) == Some(BarModule::WindowTitle),
        config_name(BarModule::WorldClock) == "world-clock"@,
        builtin_from_name("world-clock"@) == Some(BarModule::WorldClock),
{
    lemma_builtin_name_roundtrip(BarModule::Battery);
    lemma_builtin_name_roundtrip(BarModule::Bluetooth);
    lemma_builtin_name_roundtrip(BarModule::Cava);
    lemma_builtin_name_roundtrip(BarModule::Clock);
    lemma_builtin_name_roundtrip(BarModule::Cpu);
    lemma_builtin_name_roundtrip(BarModule::CpuChart);
    lemma_builtin_name_roundtrip(BarModule::Dashboard);
    lemma_builtin_name_roundtrip(BarModule::KeybindMode);
    lemma_builtin_name_roundtrip(BarModule::HyprlandWorkspaces);
    lemma_builtin_name_roundtrip(BarModule::IdleInhibit);
    lemma_builtin_name_roundtrip(BarModule::Hyprsunset);
    lemma_builtin_name_roundtrip(BarModule::KeyboardInput);
    lemma_builtin_name_roundtrip(BarModule::Media);
    lemma_builtin_name_roundtrip(BarModule::Microphone);
    lemma_builtin_name_roundtrip(BarModule::Network);
    lemma_builtin_name_roundtrip(BarModule::Netstat);
    lemma_builtin_name_roundtrip(BarModule::Notifications);
    lemma_builtin_name_roundtrip(BarModule::Power);
    lemma_builtin_name_roundtrip(BarModule::Ram);
    lemma_builtin_name_roundtrip(BarModule::Separator);
    lemma_builtin_name_roundtrip(BarModule::Storage);
    lemma_builtin_name_roundtrip(BarModule::Systray);
    lemma_builtin_name_roundtrip(BarModule::Updates);
    lemma_builtin_name_roundtrip(BarModule::Volume);
    lemma_builtin_name_roundtrip(BarModule::Weather);
    lemma_builtin_name_roundtrip(BarModule::WindowTitle);
    lemma_builtin_name_roundtrip(BarModule::WorldClock);
}

} // verus!
