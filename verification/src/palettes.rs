//! The built-in theme palettes.

use vstd::prelude::*;
use crate::wayle_theme;

verus! {

/// A theme palette: the ten colors a theme defines, as CSS color strings.
#[derive(Debug, PartialEq)]
pub struct Palette {
    /// Base background.
    pub bg: String,
    /// Surface background.
    pub surface: String,
    /// Elevated surface background.
    pub elevated: String,
    /// Foreground text.
    pub fg: String,
    /// Muted foreground text.
    pub fg_muted: String,
    /// Accent color.
    pub primary: String,
    /// Red.
    pub red: String,
    /// Yellow.
    pub yellow: String,
    /// Green.
    pub green: String,
    /// Blue.
    pub blue: String,
}

impl Palette {
    /// The ten colors in field order: bg, surface, elevated, fg, fg-muted,
    /// primary, red, yellow, green, blue.
    pub open spec fn colors(&self) -> Seq<Seq<char>> {
        seq![
            self.bg@,
            self.surface@,
            self.elevated@,
            self.fg@,
            self.fg_muted@,
            self.primary@,
            self.red@,
            self.yellow@,
            self.green@,
            self.blue@,
        ]
    }
}

/// A named theme, built in or loaded from the themes directory.
#[derive(Debug, PartialEq)]
pub struct ThemeEntry {
    /// Theme name.
    pub name: String,
    /// The theme's colors.
    pub palette: Palette,
    /// Whether the theme ships with the shell.
    pub builtin: bool,
}

/// The colors of the `wayle` palette.
pub open spec fn wayle_colors() -> Seq<Seq<char>> {
    seq![
        "#141420"@,
        "#1c1c2c"@,
        "#262638"@,
        "#d4d6e8"@,
        "#8a8ca4"@,
        "#e0947a"@,
        "#e46870"@,
        "#e0b870"@,
        "#68c898"@,
        "#78a0e0"@,
    ]
}

/// Default palette.
pub fn wayle() -> (r: Palette)
    ensures
        r.colors() == wayle_colors(),
{
    Palette {
        bg: String::from_str(wayle_theme::BG),
        surface: String::from_str(wayle_theme::SURFACE),
        elevated: String::from_str(wayle_theme::ELEVATED),
        fg: String::from_str(wayle_theme::FG),
        fg_muted: String::from_str(wayle_theme::FG_MUTED),
        primary: String::from_str(wayle_theme::PRIMARY),
        red: String::from_str(wayle_theme::RED),
        yellow: String::from_str(wayle_theme::YELLOW),
        green: String::from_str(wayle_theme::GREEN),
        blue: String::from_str(wayle_theme::BLUE),
    }
}

/// The colors of the `catppuccin` palette.
pub open spec fn catppuccin_colors() -> Seq<Seq<char>> {
    seq![
        "#11111b"@,
        "#181825"@,
        "#1e1e2e"@,
        "#cdd6f4"@,
        "#bac2de"@,
        "#b4befe"@,
        "#f38ba8"@,
        "#f9e2af"@,
        "#a6e3a1"@,
        "#74c7ec"@,
    ]
}

/// The catppuccin palette.
fn catppuccin() -> (r: Palette)
    ensures
        r.colors() == catppuccin_colors(),
{
    Palette {
        bg: String::from_str("#11111b"),
        surface: String::from_str("#181825"),
        elevated: String::from_str("#1e1e2e"),
        fg: String::from_str("#cdd6f4"),
        fg_muted: String::from_str("#bac2de"),
        primary: String::from_str("#b4befe"),
        red: String::from_str("#f38ba8"),
        yellow: String::from_str("#f9e2af"),
        green: String::from_str("#a6e3a1"),
        blue: String::from_str("#74c7ec"),
    }
}

/// The colors of the `catppuccin_latte` palette.
pub open spec fn catppuccin_latte_colors() -> Seq<Seq<char>> {
    seq![
        "#eff1f5"@,
        "#e6e9ef"@,
        "#dce0e8"@,
        "#4c4f69"@,
        "#5c5f77"@,
        "#7287fd"@,
        "#d20f39"@,
        "#df8e1d"@,
        "#40a02b"@,
        "#1e66f5"@,
    ]
}

/// The catppuccin_latte palette.
fn catppuccin_latte() -> (r: Palette)
    ensures
        r.colors() == catppuccin_latte_colors(),
{
    Palette {
        bg: String::from_str("#eff1f5"),
        surface: String::from_str("#e6e9ef"),
        elevated: String::from_str("#dce0e8"),
        fg: String::from_str("#4c4f69"),
        fg_muted: String::from_str("#5c5f77"),
        primary: String::from_str("#7287fd"),
        red: String::from_str("#d20f39"),
        yellow: String::from_str("#df8e1d"),
        green: String::from_str("#40a02b"),
        blue: String::from_str("#1e66f5"),
    }
}

/// The colors of the `gruvbox` palette.
pub open spec fn gruvbox_colors() -> Seq<Seq<char>> {
    seq![
        "#282828"@,
        "#3c3836"@,
        "#504945"@,
        "#ebdbb2"@,
        "#d5c4a1"@,
        "#83a598"@,
        "#fb4934"@,
        "#fabd2f"@,
        "#b8bb26"@,
        "#8ec07c"@,
    ]
}

/// The gruvbox palette.
fn gruvbox() -> (r: Palette)
    ensures
        r.colors() == gruvbox_colors(),
{
    Palette {
        bg: String::from_str("#282828"),
        surface: String::from_str("#3c3836"),
        elevated: String::from_str("#504945"),
        fg: String::from_str("#ebdbb2"),
        fg_muted: String::from_str("#d5c4a1"),
        primary: String::from_str("#83a598"),
        red: String::from_str("#fb4934"),
        yellow: String::from_str("#fabd2f"),
        green: String::from_str("#b8bb26"),
        blue: String::from_str("#8ec07c"),
    }
}

/// The colors of the `tokyo_night` palette.
pub open spec fn tokyo_night_colors() -> Seq<Seq<char>> {
    seq![
        "#16161e"@,
        "#1a1b26"@,
        "#292e42"@,
        "#c0caf5"@,
        "#a9b1d6"@,
        "#7aa2f7"@,
        "#f7768e"@,
        "#e0af68"@,
        "#9ece6a"@,
        "#7dcfff"@,
    ]
}

/// The tokyo_night palette.
fn tokyo_night() -> (r: Palette)
    ensures
        r.colors() == tokyo_night_colors(),
{
    Palette {
        bg: String::from_str("#16161e"),
        surface: String::from_str("#1a1b26"),
        elevated: String::from_str("#292e42"),
        fg: String::from_str("#c0caf5"),
        fg_muted: String::from_str("#a9b1d6"),
        primary: String::from_str("#7aa2f7"),
        red: String::from_str("#f7768e"),
        yellow: String::from_str("#e0af68"),
        green: String::from_str("#9ece6a"),
        blue: String::from_str("#7dcfff"),
    }
}

/// The colors of the `rose_pine` palette.
pub open spec fn rose_pine_colors() -> Seq<Seq<char>> {
    seq![
        "#191724"@,
        "#1f1d2e"@,
        "#26233a"@,
        "#e0def4"@,
        "#908caa"@,
        "#c4a7e7"@,
        "#eb6f92"@,
        "#f6c177"@,
        "#31748f"@,
        "#9ccfd8"@,
    ]
}

/// The rose_pine palette.
fn rose_pine() -> (r: Palette)
    ensures
        r.colors() == rose_pine_colors(),
{
    Palette {
        bg: String::from_str("#191724"),
        surface: String::from_str("#1f1d2e"),
        elevated: String::from_str("#26233a"),
        fg: String::from_str("#e0def4"),
        fg_muted: String::from_str("#908caa"),
        primary: String::from_str("#c4a7e7"),
        red: String::from_str("#eb6f92"),
        yellow: String::from_str("#f6c177"),
        green: String::from_str("#31748f"),
        blue: String::from_str("#9ccfd8"),
    }
}

/// The colors of the `dracula` palette.
pub open spec fn dracula_colors() -> Seq<Seq<char>> {
    seq![
        "#282a36"@,
        "#343746"@,
        "#44475a"@,
        "#f8f8f2"@,
        "#6272a4"@,
        "#bd93f9"@,
        "#ff5555"@,
        "#f1fa8c"@,
        "#50fa7b"@,
        "#8be9fd"@,
    ]
}

/// The dracula palette.
fn dracula() -> (r: Palette)
    ensures
        r.colors() == dracula_colors(),
{
    Palette {
        bg: String::from_str("#282a36"),
        surface: String::from_str("#343746"),
        elevated: String::from_str("#44475a"),
        fg: String::from_str("#f8f8f2"),
        fg_muted: String::from_str("#6272a4"),
        primary: String::from_str("#bd93f9"),
        red: String::from_str("#ff5555"),
        yellow: String::from_str("#f1fa8c"),
        green: String::from_str("#50fa7b"),
        blue: String::from_str("#8be9fd"),
    }
}

/// The colors of the `nord` palette.
pub open spec fn nord_colors() -> Seq<Seq<char>> {
    seq![
        "#2e3440"@,
        "#3b4252"@,
        "#434c5e"@,
        "#eceff4"@,
        "#d8dee9"@,
        "#88c0d0"@,
        "#bf616a"@,
        "#ebcb8b"@,
        "#a3be8c"@,
        "#81a1c1"@,
    ]
}

/// The nord palette.
fn nord() -> (r: Palette)
    ensures
        r.colors() == nord_colors(),
{
    Palette {
        bg: String::from_str("#2e3440"),
        surface: String::from_str("#3b4252"),
        elevated: String::from_str("#434c5e"),
        fg: String::from_str("#eceff4"),
        fg_muted: String::from_str("#d8dee9"),
        primary: String::from_str("#88c0d0"),
        red: String::from_str("#bf616a"),
        yellow: String::from_str("#ebcb8b"),
        green: String::from_str("#a3be8c"),
        blue: String::from_str("#81a1c1"),
    }
}

/// The colors of the `everforest` palette.
pub open spec fn everforest_colors() -> Seq<Seq<char>> {
    seq![
        "#2d353b"@,
        "#343f44"@,
        "#3d484d"@,
        "#d3c6aa"@,
        "#859289"@,
        "#7fbbb3"@,
        "#e67e80"@,
        "#dbbc7f"@,
        "#a7c080"@,
        "#83c092"@,
    ]
}

/// The everforest palette.
fn everforest() -> (r: Palette)
    ensures
        r.colors() == everforest_colors(),
{
    Palette {
        bg: String::from_str("#2d353b"),
        surface: String::from_str("#343f44"),
        elevated: String::from_str("#3d484d"),
        fg: String::from_str("#d3c6aa"),
        fg_muted: String::from_str("#859289"),
        primary: String::from_str("#7fbbb3"),
        red: String::from_str("#e67e80"),
        yellow: String::from_str("#dbbc7f"),
        green: String::from_str("#a7c080"),
        blue: String::from_str("#83c092"),
    }
}

/// The colors of the `catppuccin_frappe` palette.
pub open spec fn catppuccin_frappe_colors() -> Seq<Seq<char>> {
    seq![
        "#232634"@,
        "#292c3c"@,
        "#303446"@,
        "#c6d0f5"@,
        "#b5bfe2"@,
        "#babbf1"@,
        "#e78284"@,
        "#e5c890"@,
        "#a6d189"@,
        "#8caaee"@,
    ]
}

/// The catppuccin_frappe palette.
fn catppuccin_frappe() -> (r: Palette)
    ensures
        r.colors() == catppuccin_frappe_colors(),
{
    Palette {
        bg: String::from_str("#232634"),
        surface: String::from_str("#292c3c"),
        elevated: String::from_str("#303446"),
        fg: String::from_str("#c6d0f5"),
        fg_muted: String::from_str("#b5bfe2"),
        primary: String::from_str("#babbf1"),
        red: String::from_str("#e78284"),
        yellow: String::from_str("#e5c890"),
        green: String::from_str("#a6d189"),
        blue: String::from_str("#8caaee"),
    }
}

/// The colors of the `catppuccin_macchiato` palette.
pub open spec fn catppuccin_macchiato_colors() -> Seq<Seq<char>> {
    seq![
        "#181926"@,
        "#1e2030"@,
        "#24273a"@,
        "#cad3f5"@,
        "#b8c0e0"@,
        "#b7bdf8"@,
        "#ed8796"@,
        "#eed49f"@,
        "#a6da95"@,
        "#8aadf4"@,
    ]
}

/// The catppuccin_macchiato palette.
fn catppuccin_macchiato() -> (r: Palette)
    ensures
        r.colors() == catppuccin_macchiato_colors(),
{
    Palette {
        bg: String::from_str("#181926"),
        surface: String::from_str("#1e2030"),
        elevated: String::from_str("#24273a"),
        fg: String::from_str("#cad3f5"),
        fg_muted: String::from_str("#b8c0e0"),
        primary: String::from_str("#b7bdf8"),
        red: String::from_str("#ed8796"),
        yellow: String::from_str("#eed49f"),
        green: String::from_str("#a6da95"),
        blue: String::from_str("#8aadf4"),
    }
}

/// The colors of the `gruvbox_dark_hard` palette.
pub open spec fn gruvbox_dark_hard_colors() -> Seq<Seq<char>> {
    seq![
        "#1d2021"@,
        "#282828"@,
        "#3c3836"@,
        "#ebdbb2"@,
        "#d5c4a1"@,
        "#83a598"@,
        "#fb4934"@,
        "#fabd2f"@,
        "#b8bb26"@,
        "#8ec07c"@,
    ]
}

/// The gruvbox_dark_hard palette.
fn gruvbox_dark_hard() -> (r: Palette)
    ensures
        r.colors() == gruvbox_dark_hard_colors(),
{
    Palette {
        bg: String::from_str("#1d2021"),
        surface: String::from_str("#282828"),
        elevated: String::from_str("#3c3836"),
        fg: String::from_str("#ebdbb2"),
        fg_muted: String::from_str("#d5c4a1"),
        primary: String::from_str("#83a598"),
        red: String::from_str("#fb4934"),
        yellow: String::from_str("#fabd2f"),
        green: String::from_str("#b8bb26"),
        blue: String::from_str("#8ec07c"),
    }
}

/// The colors of the `gruvbox_dark_soft` palette.
pub open spec fn gruvbox_dark_soft_colors() -> Seq<Seq<char>> {
    seq![
        "#32302f"@,
        "#3c3836"@,
        "#504945"@,
        "#ebdbb2"@,
        "#d5c4a1"@,
        "#83a598"@,
        "#fb4934"@,
        "#fabd2f"@,
        "#b8bb26"@,
        "#8ec07c"@,
    ]
}

/// The gruvbox_dark_soft palette.
fn gruvbox_dark_soft() -> (r: Palette)
    ensures
        r.colors() == gruvbox_dark_soft_colors(),
{
    Palette {
        bg: String::from_str("#32302f"),
        surface: String::from_str("#3c3836"),
        elevated: String::from_str("#504945"),
        fg: String::from_str("#ebdbb2"),
        fg_muted: String::from_str("#d5c4a1"),
        primary: String::from_str("#83a598"),
        red: String::from_str("#fb4934"),
        yellow: String::from_str("#fabd2f"),
        green: String::from_str("#b8bb26"),
        blue: String::from_str("#8ec07c"),
    }
}

/// The colors of the `gruvbox_light` palette.
pub open spec fn gruvbox_light_colors() -> Seq<Seq<char>> {
    seq![
        "#fbf1c7"@,
        "#ebdbb2"@,
        "#d5c4a1"@,
        "#3c3836"@,
        "#504945"@,
        "#076678"@,
        "#9d0006"@,
        "#b57614"@,
        "#79740e"@,
        "#427b58"@,
    ]
}

/// The gruvbox_light palette.
fn gruvbox_light() -> (r: Palette)
    ensures
        r.colors() == gruvbox_light_colors(),
{
    Palette {
        bg: String::from_str("#fbf1c7"),
        surface: String::from_str("#ebdbb2"),
        elevated: String::from_str("#d5c4a1"),
        fg: String::from_str("#3c3836"),
        fg_muted: String::from_str("#504945"),
        primary: String::from_str("#076678"),
        red: String::from_str("#9d0006"),
        yellow: String::from_str("#b57614"),
        green: String::from_str("#79740e"),
        blue: String::from_str("#427b58"),
    }
}

/// The colors of the `gruvbox_light_hard` palette.
pub open spec fn gruvbox_light_hard_colors() -> Seq<Seq<char>> {
    seq![
        "#f9f5d7"@,
        "#fbf1c7"@,
        "#ebdbb2"@,
        "#3c3836"@,
        "#504945"@,
        "#076678"@,
        "#9d0006"@,
        "#b57614"@,
        "#79740e"@,
        "#427b58"@,
    ]
}

/// The gruvbox_light_hard palette.
fn gruvbox_light_hard() -> (r: Palette)
    ensures
        r.colors() == gruvbox_light_hard_colors(),
{
    Palette {
        bg: String::from_str("#f9f5d7"),
        surface: String::from_str("#fbf1c7"),
        elevated: String::from_str("#ebdbb2"),
        fg: String::from_str("#3c3836"),
        fg_muted: String::from_str("#504945"),
        primary: String::from_str("#076678"),
        red: String::from_str("#9d0006"),
        yellow: String::from_str("#b57614"),
        green: String::from_str("#79740e"),
        blue: String::from_str("#427b58"),
    }
}

/// The colors of the `gruvbox_light_soft` palette.
pub open spec fn gruvbox_light_soft_colors() -> Seq<Seq<char>> {
    seq![
        "#f2e5bc"@,
        "#ebdbb2"@,
        "#d5c4a1"@,
        "#3c3836"@,
        "#504945"@,
        "#076678"@,
        "#9d0006"@,
        "#b57614"@,
        "#79740e"@,
        "#427b58"@,
    ]
}

/// The gruvbox_light_soft palette.
fn gruvbox_light_soft() -> (r: Palette)
    ensures
        r.colors() == gruvbox_light_soft_colors(),
{
    Palette {
        bg: String::from_str("#f2e5bc"),
        surface: String::from_str("#ebdbb2"),
        elevated: String::from_str("#d5c4a1"),
        fg: String::from_str("#3c3836"),
        fg_muted: String::from_str("#504945"),
        primary: String::from_str("#076678"),
        red: String::from_str("#9d0006"),
        yellow: String::from_str("#b57614"),
        green: String::from_str("#79740e"),
        blue: String::from_str("#427b58"),
    }
}

/// The colors of the `tokyo_night_storm` palette.
pub open spec fn tokyo_night_storm_colors() -> Seq<Seq<char>> {
    seq![
        "#1f2335"@,
        "#24283b"@,
        "#292e42"@,
        "#c0caf5"@,
        "#a9b1d6"@,
        "#7aa2f7"@,
        "#f7768e"@,
        "#e0af68"@,
        "#9ece6a"@,
        "#7dcfff"@,
    ]
}

/// The tokyo_night_storm palette.
fn tokyo_night_storm() -> (r: Palette)
    ensures
        r.colors() == tokyo_night_storm_colors(),
{
    Palette {
        bg: String::from_str("#1f2335"),
        surface: String::from_str("#24283b"),
        elevated: String::from_str("#292e42"),
        fg: String::from_str("#c0caf5"),
        fg_muted: String::from_str("#a9b1d6"),
        primary: String::from_str("#7aa2f7"),
        red: String::from_str("#f7768e"),
        yellow: String::from_str("#e0af68"),
        green: String::from_str("#9ece6a"),
        blue: String::from_str("#7dcfff"),
    }
}

/// The colors of the `tokyo_night_moon` palette.
pub open spec fn tokyo_night_moon_colors() -> Seq<Seq<char>> {
    seq![
        "#1e2030"@,
        "#222436"@,
        "#2f334d"@,
        "#c8d3f5"@,
        "#828bb8"@,
        "#82aaff"@,
        "#ff757f"@,
        "#ffc777"@,
        "#c3e88d"@,
        "#86e1fc"@,
    ]
}

/// The tokyo_night_moon palette.
fn tokyo_night_moon() -> (r: Palette)
    ensures
        r.colors() == tokyo_night_moon_colors(),
{
    Palette {
        bg: String::from_str("#1e2030"),
        surface: String::from_str("#222436"),
        elevated: String::from_str("#2f334d"),
        fg: String::from_str("#c8d3f5"),
        fg_muted: String::from_str("#828bb8"),
        primary: String::from_str("#82aaff"),
        red: String::from_str("#ff757f"),
        yellow: String::from_str("#ffc777"),
        green: String::from_str("#c3e88d"),
        blue: String::from_str("#86e1fc"),
    }
}

/// The colors of the `tokyo_night_day` palette.
pub open spec fn tokyo_night_day_colors() -> Seq<Seq<char>> {
    seq![
        "#e1e2e7"@,
        "#d0d5e3"@,
        "#c4c8da"@,
        "#3760bf"@,
        "#6172b0"@,
        "#2e7de9"@,
        "#f52a65"@,
        "#8c6c3e"@,
        "#587539"@,
        "#007197"@,
    ]
}

/// The tokyo_night_day palette.
fn tokyo_night_day() -> (r: Palette)
    ensures
        r.colors() == tokyo_night_day_colors(),
{
    Palette {
        bg: String::from_str("#e1e2e7"),
        surface: String::from_str("#d0d5e3"),
        elevated: String::from_str("#c4c8da"),
        fg: String::from_str("#3760bf"),
        fg_muted: String::from_str("#6172b0"),
        primary: String::from_str("#2e7de9"),
        red: String::from_str("#f52a65"),
        yellow: String::from_str("#8c6c3e"),
        green: String::from_str("#587539"),
        blue: String::from_str("#007197"),
    }
}

/// The colors of the `rose_pine_moon` palette.
pub open spec fn rose_pine_moon_colors() -> Seq<Seq<char>> {
    seq![
        "#232136"@,
        "#2a273f"@,
        "#393552"@,
        "#e0def4"@,
        "#908caa"@,
        "#c4a7e7"@,
        "#eb6f92"@,
        "#f6c177"@,
        "#3e8fb0"@,
        "#9ccfd8"@,
    ]
}

/// The rose_pine_moon palette.
fn rose_pine_moon() -> (r: Palette)
    ensures
        r.colors() == rose_pine_moon_colors(),
{
    Palette {
        bg: String::from_str("#232136"),
        surface: String::from_str("#2a273f"),
        elevated: String::from_str("#393552"),
        fg: String::from_str("#e0def4"),
        fg_muted: String::from_str("#908caa"),
        primary: String::from_str("#c4a7e7"),
        red: String::from_str("#eb6f92"),
        yellow: String::from_str("#f6c177"),
        green: String::from_str("#3e8fb0"),
        blue: String::from_str("#9ccfd8"),
    }
}

/// The colors of the `rose_pine_dawn` palette.
pub open spec fn rose_pine_dawn_colors() -> Seq<Seq<char>> {
    seq![
        "#fffaf3"@,
        "#faf4ed"@,
        "#f2e9e1"@,
        "#464261"@,
        "#797593"@,
        "#907aa9"@,
        "#b4637a"@,
        "#ea9d34"@,
        "#286983"@,
        "#56949f"@,
    ]
}

/// The rose_pine_dawn palette.
fn rose_pine_dawn() -> (r: Palette)
    ensures
        r.colors() == rose_pine_dawn_colors(),
{
    Palette {
        bg: String::from_str("#fffaf3"),
        surface: String::from_str("#faf4ed"),
        elevated: String::from_str("#f2e9e1"),
        fg: String::from_str("#464261"),
        fg_muted: String::from_str("#797593"),
        primary: String::from_str("#907aa9"),
        red: String::from_str("#b4637a"),
        yellow: String::from_str("#ea9d34"),
        green: String::from_str("#286983"),
        blue: String::from_str("#56949f"),
    }
}

/// The colors of the `everforest_dark_hard` palette.
pub open spec fn everforest_dark_hard_colors() -> Seq<Seq<char>> {
    seq![
        "#272e33"@,
        "#2d353b"@,
        "#343f44"@,
        "#d3c6aa"@,
        "#859289"@,
        "#7fbbb3"@,
        "#e67e80"@,
        "#dbbc7f"@,
        "#a7c080"@,
        "#83c092"@,
    ]
}

/// The everforest_dark_hard palette.
fn everforest_dark_hard() -> (r: Palette)
    ensures
        r.colors() == everforest_dark_hard_colors(),
{
    Palette {
        bg: String::from_str("#272e33"),
        surface: String::from_str("#2d353b"),
        elevated: String::from_str("#343f44"),
        fg: String::from_str("#d3c6aa"),
        fg_muted: String::from_str("#859289"),
        primary: String::from_str("#7fbbb3"),
        red: String::from_str("#e67e80"),
        yellow: String::from_str("#dbbc7f"),
        green: String::from_str("#a7c080"),
        blue: String::from_str("#83c092"),
    }
}

/// The colors of the `everforest_dark_soft` palette.
pub open spec fn everforest_dark_soft_colors() -> Seq<Seq<char>> {
    seq![
        "#333c43"@,
        "#3a464c"@,
        "#4d5960"@,
        "#d3c6aa"@,
        "#859289"@,
        "#7fbbb3"@,
        "#e67e80"@,
        "#dbbc7f"@,
        "#a7c080"@,
        "#83c092"@,
    ]
}

/// The everforest_dark_soft palette.
fn everforest_dark_soft() -> (r: Palette)
    ensures
        r.colors() == everforest_dark_soft_colors(),
{
    Palette {
        bg: String::from_str("#333c43"),
        surface: String::from_str("#3a464c"),
        elevated: String::from_str("#4d5960"),
        fg: String::from_str("#d3c6aa"),
        fg_muted: String::from_str("#859289"),
        primary: String::from_str("#7fbbb3"),
        red: String::from_str("#e67e80"),
        yellow: String::from_str("#dbbc7f"),
        green: String::from_str("#a7c080"),
        blue: String::from_str("#83c092"),
    }
}

/// The colors of the `everforest_light` palette.
pub open spec fn everforest_light_colors() -> Seq<Seq<char>> {
    seq![
        "#fdf6e3"@,
        "#f4f0d9"@,
        "#e6e2cc"@,
        "#5c6a72"@,
        "#939f91"@,
        "#3a94c5"@,
        "#f85552"@,
        "#dfa000"@,
        "#8da101"@,
        "#35a77c"@,
    ]
}

/// The everforest_light palette.
fn everforest_light() -> (r: Palette)
    ensures
        r.colors() == everforest_light_colors(),
{
    Palette {
        bg: String::from_str("#fdf6e3"),
        surface: String::from_str("#f4f0d9"),
        elevated: String::from_str("#e6e2cc"),
        fg: String::from_str("#5c6a72"),
        fg_muted: String::from_str("#939f91"),
        primary: String::from_str("#3a94c5"),
        red: String::from_str("#f85552"),
        yellow: String::from_str("#dfa000"),
        green: String::from_str("#8da101"),
        blue: String::from_str("#35a77c"),
    }
}

/// The colors of the `everforest_light_hard` palette.
pub open spec fn everforest_light_hard_colors() -> Seq<Seq<char>> {
    seq![
        "#fffbef"@,
        "#fdf6e3"@,
        "#f4f0d9"@,
        "#5c6a72"@,
        "#939f91"@,
        "#3a94c5"@,
        "#f85552"@,
        "#dfa000"@,
        "#8da101"@,
        "#35a77c"@,
    ]
}

/// The everforest_light_hard palette.
fn everforest_light_hard() -> (r: Palette)
    ensures
        r.colors() == everforest_light_hard_colors(),
{
    Palette {
        bg: String::from_str("#fffbef"),
        surface: String::from_str("#fdf6e3"),
        elevated: String::from_str("#f4f0d9"),
        fg: String::from_str("#5c6a72"),
        fg_muted: String::from_str("#939f91"),
        primary: String::from_str("#3a94c5"),
        red: String::from_str("#f85552"),
        yellow: String::from_str("#dfa000"),
        green: String::from_str("#8da101"),
        blue: String::from_str("#35a77c"),
    }
}

/// The colors of the `everforest_light_soft` palette.
pub open spec fn everforest_light_soft_colors() -> Seq<Seq<char>> {
    seq![
        "#f3ead3"@,
        "#eae4ca"@,
        "#ddd8be"@,
        "#5c6a72"@,
        "#939f91"@,
        "#3a94c5"@,
        "#f85552"@,
        "#dfa000"@,
        "#8da101"@,
        "#35a77c"@,
    ]
}

/// The everforest_light_soft palette.
fn everforest_light_soft() -> (r: Palette)
    ensures
        r.colors() == everforest_light_soft_colors(),
{
    Palette {
        bg: String::from_str("#f3ead3"),
        surface: String::from_str("#eae4ca"),
        elevated: String::from_str("#ddd8be"),
        fg: String::from_str("#5c6a72"),
        fg_muted: String::from_str("#939f91"),
        primary: String::from_str("#3a94c5"),
        red: String::from_str("#f85552"),
        yellow: String::from_str("#dfa000"),
        green: String::from_str("#8da101"),
        blue: String::from_str("#35a77c"),
    }
}

/// The colors of the `kanagawa_wave` palette.
pub open spec fn kanagawa_wave_colors() -> Seq<Seq<char>> {
    seq![
        "#1a1a22"@,
        "#1f1f28"@,
        "#2a2a37"@,
        "#dcd7ba"@,
        "#727169"@,
        "#957fb8"@,
        "#e82424"@,
        "#dca561"@,
        "#98bb6c"@,
        "#7e9cd8"@,
    ]
}

/// The kanagawa_wave palette.
fn kanagawa_wave() -> (r: Palette)
    ensures
        r.colors() == kanagawa_wave_colors(),
{
    Palette {
        bg: String::from_str("#1a1a22"),
        surface: String::from_str("#1f1f28"),
        elevated: String::from_str("#2a2a37"),
        fg: String::from_str("#dcd7ba"),
        fg_muted: String::from_str("#727169"),
        primary: String::from_str("#957fb8"),
        red: String::from_str("#e82424"),
        yellow: String::from_str("#dca561"),
        green: String::from_str("#98bb6c"),
        blue: String::from_str("#7e9cd8"),
    }
}

/// The colors of the `kanagawa_dragon` palette.
pub open spec fn kanagawa_dragon_colors() -> Seq<Seq<char>> {
    seq![
        "#0d0c0c"@,
        "#181616"@,
        "#282727"@,
        "#c5c9c5"@,
        "#a6a69c"@,
        "#8992a7"@,
        "#c4746e"@,
        "#c4b28a"@,
        "#87a987"@,
        "#8ba4b0"@,
    ]
}

/// The kanagawa_dragon palette.
fn kanagawa_dragon() -> (r: Palette)
    ensures
        r.colors() == kanagawa_dragon_colors(),
{
    Palette {
        bg: String::from_str("#0d0c0c"),
        surface: String::from_str("#181616"),
        elevated: String::from_str("#282727"),
        fg: String::from_str("#c5c9c5"),
        fg_muted: String::from_str("#a6a69c"),
        primary: String::from_str("#8992a7"),
        red: String::from_str("#c4746e"),
        yellow: String::from_str("#c4b28a"),
        green: String::from_str("#87a987"),
        blue: String::from_str("#8ba4b0"),
    }
}

/// The colors of the `kanagawa_lotus` palette.
pub open spec fn kanagawa_lotus_colors() -> Seq<Seq<char>> {
    seq![
        "#f2ecbc"@,
        "#e5ddb0"@,
        "#e7dba0"@,
        "#545464"@,
        "#716e61"@,
        "#766b90"@,
        "#c84053"@,
        "#de9800"@,
        "#6f894e"@,
        "#4d699b"@,
    ]
}

/// The kanagawa_lotus palette.
fn kanagawa_lotus() -> (r: Palette)
    ensures
        r.colors() == kanagawa_lotus_colors(),
{
    Palette {
        bg: String::from_str("#f2ecbc"),
        surface: String::from_str("#e5ddb0"),
        elevated: String::from_str("#e7dba0"),
        fg: String::from_str("#545464"),
        fg_muted: String::from_str("#716e61"),
        primary: String::from_str("#766b90"),
        red: String::from_str("#c84053"),
        yellow: String::from_str("#de9800"),
        green: String::from_str("#6f894e"),
        blue: String::from_str("#4d699b"),
    }
}

/// The colors of the `monokai` palette.
pub open spec fn monokai_colors() -> Seq<Seq<char>> {
    seq![
        "#1e1f1c"@,
        "#272822"@,
        "#3e3d32"@,
        "#f8f8f2"@,
        "#75715e"@,
        "#ae81ff"@,
        "#f92672"@,
        "#e6db74"@,
        "#a6e22e"@,
        "#66d9ef"@,
    ]
}

/// The monokai palette.
fn monokai() -> (r: Palette)
    ensures
        r.colors() == monokai_colors(),
{
    Palette {
        bg: String::from_str("#1e1f1c"),
        surface: String::from_str("#272822"),
        elevated: String::from_str("#3e3d32"),
        fg: String::from_str("#f8f8f2"),
        fg_muted: String::from_str("#75715e"),
        primary: String::from_str("#ae81ff"),
        red: String::from_str("#f92672"),
        yellow: String::from_str("#e6db74"),
        green: String::from_str("#a6e22e"),
        blue: String::from_str("#66d9ef"),
    }
}

/// The colors of the `monokai_pro_classic` palette.
pub open spec fn monokai_pro_classic_colors() -> Seq<Seq<char>> {
    seq![
        "#221f22"@,
        "#2d2a2e"@,
        "#403e41"@,
        "#fcfcfa"@,
        "#727072"@,
        "#ab9df2"@,
        "#ff6188"@,
        "#ffd866"@,
        "#a9dc76"@,
        "#78dce8"@,
    ]
}

/// The monokai_pro_classic palette.
fn monokai_pro_classic() -> (r: Palette)
    ensures
        r.colors() == monokai_pro_classic_colors(),
{
    Palette {
        bg: String::from_str("#221f22"),
        surface: String::from_str("#2d2a2e"),
        elevated: String::from_str("#403e41"),
        fg: String::from_str("#fcfcfa"),
        fg_muted: String::from_str("#727072"),
        primary: String::from_str("#ab9df2"),
        red: String::from_str("#ff6188"),
        yellow: String::from_str("#ffd866"),
        green: String::from_str("#a9dc76"),
        blue: String::from_str("#78dce8"),
    }
}

/// The colors of the `monokai_pro_octagon` palette.
pub open spec fn monokai_pro_octagon_colors() -> Seq<Seq<char>> {
    seq![
        "#1d1f28"@,
        "#282a3a"@,
        "#3a3d4b"@,
        "#eaf2f1"@,
        "#696d77"@,
        "#c39ac9"@,
        "#ff657a"@,
        "#ffd76d"@,
        "#bad761"@,
        "#9cd1bb"@,
    ]
}

/// The monokai_pro_octagon palette.
fn monokai_pro_octagon() -> (r: Palette)
    ensures
        r.colors() == monokai_pro_octagon_colors(),
{
    Palette {
        bg: String::from_str("#1d1f28"),
        surface: String::from_str("#282a3a"),
        elevated: String::from_str("#3a3d4b"),
        fg: String::from_str("#eaf2f1"),
        fg_muted: String::from_str("#696d77"),
        primary: String::from_str("#c39ac9"),
        red: String::from_str("#ff657a"),
        yellow: String::from_str("#ffd76d"),
        green: String::from_str("#bad761"),
        blue: String::from_str("#9cd1bb"),
    }
}

/// The colors of the `monokai_pro_machine` palette.
pub open spec fn monokai_pro_machine_colors() -> Seq<Seq<char>> {
    seq![
        "#1d2528"@,
        "#273136"@,
        "#363c42"@,
        "#f2fffc"@,
        "#6b7678"@,
        "#baa0f8"@,
        "#ff6d7e"@,
        "#ffed72"@,
        "#a2e57b"@,
        "#7cd5f1"@,
    ]
}

/// The monokai_pro_machine palette.
fn monokai_pro_machine() -> (r: Palette)
    ensures
        r.colors() == monokai_pro_machine_colors(),
{
    Palette {
        bg: String::from_str("#1d2528"),
        surface: String::from_str("#273136"),
        elevated: String::from_str("#363c42"),
        fg: String::from_str("#f2fffc"),
        fg_muted: String::from_str("#6b7678"),
        primary: String::from_str("#baa0f8"),
        red: String::from_str("#ff6d7e"),
        yellow: String::from_str("#ffed72"),
        green: String::from_str("#a2e57b"),
        blue: String::from_str("#7cd5f1"),
    }
}

/// The colors of the `monokai_pro_ristretto` palette.
pub open spec fn monokai_pro_ristretto_colors() -> Seq<Seq<char>> {
    seq![
        "#211c1c"@,
        "#2c2525"@,
        "#403838"@,
        "#fff1f3"@,
        "#72696a"@,
        "#a8a9eb"@,
        "#fd6883"@,
        "#f9cc6c"@,
        "#adda78"@,
        "#85dacc"@,
    ]
}

/// The monokai_pro_ristretto palette.
fn monokai_pro_ristretto() -> (r: Palette)
    ensures
        r.colors() == monokai_pro_ristretto_colors(),
{
    Palette {
        bg: String::from_str("#211c1c"),
        surface: String::from_str("#2c2525"),
        elevated: String::from_str("#403838"),
        fg: String::from_str("#fff1f3"),
        fg_muted: String::from_str("#72696a"),
        primary: String::from_str("#a8a9eb"),
        red: String::from_str("#fd6883"),
        yellow: String::from_str("#f9cc6c"),
        green: String::from_str("#adda78"),
        blue: String::from_str("#85dacc"),
    }
}

/// The colors of the `monokai_pro_spectrum` palette.
pub open spec fn monokai_pro_spectrum_colors() -> Seq<Seq<char>> {
    seq![
        "#191919"@,
        "#222222"@,
        "#363537"@,
        "#f7f1ff"@,
        "#69676c"@,
        "#948ae3"@,
        "#fc618d"@,
        "#fce566"@,
        "#7bd88f"@,
        "#5ad4e6"@,
    ]
}

/// The monokai_pro_spectrum palette.
fn monokai_pro_spectrum() -> (r: Palette)
    ensures
        r.colors() == monokai_pro_spectrum_colors(),
{
    Palette {
        bg: String::from_str("#191919"),
        surface: String::from_str("#222222"),
        elevated: String::from_str("#363537"),
        fg: String::from_str("#f7f1ff"),
        fg_muted: String::from_str("#69676c"),
        primary: String::from_str("#948ae3"),
        red: String::from_str("#fc618d"),
        yellow: String::from_str("#fce566"),
        green: String::from_str("#7bd88f"),
        blue: String::from_str("#5ad4e6"),
    }
}

/// The colors of the `nightfox_carbonfox` palette.
pub open spec fn nightfox_carbonfox_colors() -> Seq<Seq<char>> {
    seq![
        "#0a0a0a"@,
        "#161616"@,
        "#1f1f1f"@,
        "#f2f4f8"@,
        "#a8aab1"@,
        "#78a9ff"@,
        "#ee5396"@,
        "#08bdba"@,
        "#25be6a"@,
        "#33b1ff"@,
    ]
}

/// The nightfox_carbonfox palette.
fn nightfox_carbonfox() -> (r: Palette)
    ensures
        r.colors() == nightfox_carbonfox_colors(),
{
    Palette {
        bg: String::from_str("#0a0a0a"),
        surface: String::from_str("#161616"),
        elevated: String::from_str("#1f1f1f"),
        fg: String::from_str("#f2f4f8"),
        fg_muted: String::from_str("#a8aab1"),
        primary: String::from_str("#78a9ff"),
        red: String::from_str("#ee5396"),
        yellow: String::from_str("#08bdba"),
        green: String::from_str("#25be6a"),
        blue: String::from_str("#33b1ff"),
    }
}

/// The colors of the `nightfox_nightfox` palette.
pub open spec fn nightfox_nightfox_colors() -> Seq<Seq<char>> {
    seq![
        "#131a24"@,
        "#192330"@,
        "#212e3f"@,
        "#cdcecf"@,
        "#71839b"@,
        "#719cd6"@,
        "#c94f6d"@,
        "#dbc074"@,
        "#81b29a"@,
        "#63cdcf"@,
    ]
}

/// The nightfox_nightfox palette.
fn nightfox_nightfox() -> (r: Palette)
    ensures
        r.colors() == nightfox_nightfox_colors(),
{
    Palette {
        bg: String::from_str("#131a24"),
        surface: String::from_str("#192330"),
        elevated: String::from_str("#212e3f"),
        fg: String::from_str("#cdcecf"),
        fg_muted: String::from_str("#71839b"),
        primary: String::from_str("#719cd6"),
        red: String::from_str("#c94f6d"),
        yellow: String::from_str("#dbc074"),
        green: String::from_str("#81b29a"),
        blue: String::from_str("#63cdcf"),
    }
}

/// The colors of the `nightfox_duskfox` palette.
pub open spec fn nightfox_duskfox_colors() -> Seq<Seq<char>> {
    seq![
        "#191726"@,
        "#232136"@,
        "#2d2a45"@,
        "#e0def4"@,
        "#6e6a86"@,
        "#c4a7e7"@,
        "#eb6f92"@,
        "#f6c177"@,
        "#a3be8c"@,
        "#9ccfd8"@,
    ]
}

/// The nightfox_duskfox palette.
fn nightfox_duskfox() -> (r: Palette)
    ensures
        r.colors() == nightfox_duskfox_colors(),
{
    Palette {
        bg: String::from_str("#191726"),
        surface: String::from_str("#232136"),
        elevated: String::from_str("#2d2a45"),
        fg: String::from_str("#e0def4"),
        fg_muted: String::from_str("#6e6a86"),
        primary: String::from_str("#c4a7e7"),
        red: String::from_str("#eb6f92"),
        yellow: String::from_str("#f6c177"),
        green: String::from_str("#a3be8c"),
        blue: String::from_str("#9ccfd8"),
    }
}

/// The colors of the `nightfox_nordfox` palette.
pub open spec fn nightfox_nordfox_colors() -> Seq<Seq<char>> {
    seq![
        "#232831"@,
        "#2e3440"@,
        "#39404f"@,
        "#cdcecf"@,
        "#7e8188"@,
        "#88c0d0"@,
        "#bf616a"@,
        "#ebcb8b"@,
        "#a3be8c"@,
        "#81a1c1"@,
    ]
}

/// The nightfox_nordfox palette.
fn nightfox_nordfox() -> (r: Palette)
    ensures
        r.colors() == nightfox_nordfox_colors(),
{
    Palette {
        bg: String::from_str("#232831"),
        surface: String::from_str("#2e3440"),
        elevated: String::from_str("#39404f"),
        fg: String::from_str("#cdcecf"),
        fg_muted: String::from_str("#7e8188"),
        primary: String::from_str("#88c0d0"),
        red: String::from_str("#bf616a"),
        yellow: String::from_str("#ebcb8b"),
        green: String::from_str("#a3be8c"),
        blue: String::from_str("#81a1c1"),
    }
}

/// The colors of the `nightfox_terafox` palette.
pub open spec fn nightfox_terafox_colors() -> Seq<Seq<char>> {
    seq![
        "#0f1c1e"@,
        "#152528"@,
        "#1d3337"@,
        "#e6eaea"@,
        "#587b7b"@,
        "#5a93aa"@,
        "#e85c51"@,
        "#fda47f"@,
        "#7aa4a1"@,
        "#a1cdd8"@,
    ]
}

/// The nightfox_terafox palette.
fn nightfox_terafox() -> (r: Palette)
    ensures
        r.colors() == nightfox_terafox_colors(),
{
    Palette {
        bg: String::from_str("#0f1c1e"),
        surface: String::from_str("#152528"),
        elevated: String::from_str("#1d3337"),
        fg: String::from_str("#e6eaea"),
        fg_muted: String::from_str("#587b7b"),
        primary: String::from_str("#5a93aa"),
        red: String::from_str("#e85c51"),
        yellow: String::from_str("#fda47f"),
        green: String::from_str("#7aa4a1"),
        blue: String::from_str("#a1cdd8"),
    }
}

/// The colors of the `nightfox_dayfox` palette.
pub open spec fn nightfox_dayfox_colors() -> Seq<Seq<char>> {
    seq![
        "#f6f2ee"@,
        "#e4dcd4"@,
        "#d3c7bb"@,
        "#3d2b5a"@,
        "#824d5b"@,
        "#2848a9"@,
        "#a5222f"@,
        "#ac5402"@,
        "#396847"@,
        "#287980"@,
    ]
}

/// The nightfox_dayfox palette.
fn nightfox_dayfox() -> (r: Palette)
    ensures
        r.colors() == nightfox_dayfox_colors(),
{
    Palette {
        bg: String::from_str("#f6f2ee"),
        surface: String::from_str("#e4dcd4"),
        elevated: String::from_str("#d3c7bb"),
        fg: String::from_str("#3d2b5a"),
        fg_muted: String::from_str("#824d5b"),
        primary: String::from_str("#2848a9"),
        red: String::from_str("#a5222f"),
        yellow: String::from_str("#ac5402"),
        green: String::from_str("#396847"),
        blue: String::from_str("#287980"),
    }
}

/// The colors of the `one_dark` palette.
pub open spec fn one_dark_colors() -> Seq<Seq<char>> {
    seq![
        "#21252b"@,
        "#282c34"@,
        "#3e4451"@,
        "#abb2bf"@,
        "#5c6370"@,
        "#61afef"@,
        "#e06c75"@,
        "#e5c07b"@,
        "#98c379"@,
        "#56b6c2"@,
    ]
}

/// The one_dark palette.
fn one_dark() -> (r: Palette)
    ensures
        r.colors() == one_dark_colors(),
{
    Palette {
        bg: String::from_str("#21252b"),
        surface: String::from_str("#282c34"),
        elevated: String::from_str("#3e4451"),
        fg: String::from_str("#abb2bf"),
        fg_muted: String::from_str("#5c6370"),
        primary: String::from_str("#61afef"),
        red: String::from_str("#e06c75"),
        yellow: String::from_str("#e5c07b"),
        green: String::from_str("#98c379"),
        blue: String::from_str("#56b6c2"),
    }
}

/// The colors of the `one_light` palette.
pub open spec fn one_light_colors() -> Seq<Seq<char>> {
    seq![
        "#fafafa"@,
        "#ebebec"@,
        "#e5e5e6"@,
        "#383a42"@,
        "#a0a1a7"@,
        "#4078f2"@,
        "#e45649"@,
        "#c18401"@,
        "#50a14f"@,
        "#0184bc"@,
    ]
}

/// The one_light palette.
fn one_light() -> (r: Palette)
    ensures
        r.colors() == one_light_colors(),
{
    Palette {
        bg: String::from_str("#fafafa"),
        surface: String::from_str("#ebebec"),
        elevated: String::from_str("#e5e5e6"),
        fg: String::from_str("#383a42"),
        fg_muted: String::from_str("#a0a1a7"),
        primary: String::from_str("#4078f2"),
        red: String::from_str("#e45649"),
        yellow: String::from_str("#c18401"),
        green: String::from_str("#50a14f"),
        blue: String::from_str("#0184bc"),
    }
}

/// The colors of the `solarized_dark` palette.
pub open spec fn solarized_dark_colors() -> Seq<Seq<char>> {
    seq![
        "#002b36"@,
        "#073642"@,
        "#094553"@,
        "#839496"@,
        "#586e75"@,
        "#268bd2"@,
        "#dc322f"@,
        "#b58900"@,
        "#859900"@,
        "#2aa198"@,
    ]
}

/// The solarized_dark palette.
fn solarized_dark() -> (r: Palette)
    ensures
        r.colors() == solarized_dark_colors(),
{
    Palette {
        bg: String::from_str("#002b36"),
        surface: String::from_str("#073642"),
        elevated: String::from_str("#094553"),
        fg: String::from_str("#839496"),
        fg_muted: String::from_str("#586e75"),
        primary: String::from_str("#268bd2"),
        red: String::from_str("#dc322f"),
        yellow: String::from_str("#b58900"),
        green: String::from_str("#859900"),
        blue: String::from_str("#2aa198"),
    }
}

/// The colors of the `solarized_light` palette.
pub open spec fn solarized_light_colors() -> Seq<Seq<char>> {
    seq![
        "#fdf6e3"@,
        "#eee8d5"@,
        "#e0d9c4"@,
        "#657b83"@,
        "#93a1a1"@,
        "#268bd2"@,
        "#dc322f"@,
        "#b58900"@,
        "#859900"@,
        "#2aa198"@,
    ]
}

/// The solarized_light palette.
fn solarized_light() -> (r: Palette)
    ensures
        r.colors() == solarized_light_colors(),
{
    Palette {
        bg: String::from_str("#fdf6e3"),
        surface: String::from_str("#eee8d5"),
        elevated: String::from_str("#e0d9c4"),
        fg: String::from_str("#657b83"),
        fg_muted: String::from_str("#93a1a1"),
        primary: String::from_str("#268bd2"),
        red: String::from_str("#dc322f"),
        yellow: String::from_str("#b58900"),
        green: String::from_str("#859900"),
        blue: String::from_str("#2aa198"),
    }
}

/// The names of the built-in themes, in order.
pub open spec fn builtin_names() -> Seq<Seq<char>> {
    seq![
        "wayle"@,
        "catppuccin-mocha"@,
        "catppuccin-macchiato"@,
        "catppuccin-frappe"@,
        "catppuccin-latte"@,
        "dracula"@,
        "everforest-dark"@,
        "everforest-dark-hard"@,
        "everforest-dark-soft"@,
        "everforest-light"@,
        "everforest-light-hard"@,
        "everforest-light-soft"@,
        "gruvbox-dark"@,
        "gruvbox-dark-hard"@,
        "gruvbox-dark-soft"@,
        "gruvbox-light"@,
        "gruvbox-light-hard"@,
        "gruvbox-light-soft"@,
        "kanagawa-wave"@,
        "kanagawa-dragon"@,
        "kanagawa-lotus"@,
        "monokai"@,
        "monokai-pro-classic"@,
        "monokai-pro-octagon"@,
        "monokai-pro-machine"@,
        "monokai-pro-ristretto"@,
        "monokai-pro-spectrum"@,
        "nightfox-carbonfox"@,
        "nightfox-nightfox"@,
        "nightfox-duskfox"@,
        "nightfox-nordfox"@,
        "nightfox-terafox"@,
        "nightfox-dayfox"@,
        "nord"@,
        "one-dark"@,
        "one-light"@,
        "rose-pine-main"@,
        "rose-pine-moon"@,
        "rose-pine-dawn"@,
        "solarized-dark"@,
        "solarized-light"@,
        "tokyo-night-night"@,
        "tokyo-night-storm"@,
        "tokyo-night-moon"@,
        "tokyo-night-day"@,
    ]
}

/// The colors of the built-in themes, in order.
pub open spec fn builtin_colors() -> Seq<Seq<Seq<char>>> {
    seq![
        wayle_colors(),
        catppuccin_colors(),
        catppuccin_macchiato_colors(),
        catppuccin_frappe_colors(),
        catppuccin_latte_colors(),
        dracula_colors(),
        everforest_colors(),
        everforest_dark_hard_colors(),
        everforest_dark_soft_colors(),
        everforest_light_colors(),
        everforest_light_hard_colors(),
        everforest_light_soft_colors(),
        gruvbox_colors(),
        gruvbox_dark_hard_colors(),
        gruvbox_dark_soft_colors(),
        gruvbox_light_colors(),
        gruvbox_light_hard_colors(),
        gruvbox_light_soft_colors(),
        kanagawa_wave_colors(),
        kanagawa_dragon_colors(),
        kanagawa_lotus_colors(),
        monokai_colors(),
        monokai_pro_classic_colors(),
        monokai_pro_octagon_colors(),
        monokai_pro_machine_colors(),
        monokai_pro_ristretto_colors(),
        monokai_pro_spectrum_colors(),
        nightfox_carbonfox_colors(),
        nightfox_nightfox_colors(),
        nightfox_duskfox_colors(),
        nightfox_nordfox_colors(),
        nightfox_terafox_colors(),
        nightfox_dayfox_colors(),
        nord_colors(),
        one_dark_colors(),
        one_light_colors(),
        rose_pine_colors(),
        rose_pine_moon_colors(),
        rose_pine_dawn_colors(),
        solarized_dark_colors(),
        solarized_light_colors(),
        tokyo_night_colors(),
        tokyo_night_storm_colors(),
        tokyo_night_moon_colors(),
        tokyo_night_day_colors(),
    ]
}

/// All built-in theme entries.
#[verifier::rlimit(100)]
pub fn builtins() -> (r: Vec<ThemeEntry>)
    ensures
        r@.len() == builtin_names().len(),
        forall|i: int| 0 <= i < r@.len() ==> {
            &&& (#[trigger] r@[i]).name@ == builtin_names()[i]
            &&& r@[i].palette.colors() == builtin_colors()[i]
            &&& r@[i].builtin
        },
{
    let mut v: Vec<ThemeEntry> = Vec::new();
    v.push(ThemeEntry { name: String::from_str("wayle"), palette: wayle(), builtin: true });
    v.push(ThemeEntry { name: String::from_str("catppuccin-mocha"), palette: catppuccin(), builtin: true });
    v.push(ThemeEntry { name: String::from_str("catppuccin-macchiato"), palette: catppuccin_macchiato(), builtin: true });
    v.push(ThemeEntry { name: String::from_str("catppuccin-frappe"), palette: catppuccin_frappe(), builtin: true });
    v.push(ThemeEntry { name: String::from_str("catppuccin-latte"), palette: catppuccin_latte(), builtin: true });
    v.push(ThemeEntry { name: String::from_str("dracula"), palette: dracula(), builtin: true });
    v.push(ThemeEntry { name: String::from_str("everforest-dark"), palette: everforest(), builtin: true });
    v.push(ThemeEntry { name: String::from_str("everforest-dark-hard"), palette: everforest_dark_hard(), builtin: true });
    v.push(ThemeEntry { name: String::from_str("everforest-dark-soft"), palette: everforest_dark_soft(), builtin: true });
    v.push(ThemeEntry { name: String::from_str("everforest-light"), palette: everforest_light(), builtin: true });
    v.push(ThemeEntry { name: String::from_str("everforest-light-hard"), palette: everforest_light_hard(), builtin: true });
    v.push(ThemeEntry { name: String::from_str("everforest-light-soft"), palette: everforest_light_soft(), builtin: true });
    v.push(ThemeEntry { name: String::from_str("gruvbox-dark"), palette: gruvbox(), builtin: true });
    v.push(ThemeEntry { name: String::from_str("gruvbox-dark-hard"), palette: gruvbox_dark_hard(), builtin: true });
    v.push(ThemeEntry { name: String::from_str("gruvbox-dark-soft"), palette: gruvbox_dark_soft(), builtin: true });
    v.push(ThemeEntry { name: String::from_str("gruvbox-light"), palette: gruvbox_light(), builtin: true });
    v.push(ThemeEntry { name: String::from_str("gruvbox-light-hard"), palette: gruvbox_light_hard(), builtin: true });
    v.push(ThemeEntry { name: String::from_str("gruvbox-light-soft"), palette: gruvbox_light_soft(), builtin: true });
    v.push(ThemeEntry { name: String::from_str("kanagawa-wave"), palette: kanagawa_wave(), builtin: true });
    v.push(ThemeEntry { name: String::from_str("kanagawa-dragon"), palette: kanagawa_dragon(), builtin: true });
    v.push(ThemeEntry { name: String::from_str("kanagawa-lotus"), palette: kanagawa_lotus(), builtin: true });
    v.push(ThemeEntry { name: String::from_str("monokai"), palette: monokai(), builtin: true });
    v.push(ThemeEntry { name: String::from_str("monokai-pro-classic"), palette: monokai_pro_classic(), builtin: true });
    v.push(ThemeEntry { name: String::from_str("monokai-pro-octagon"), palette: monokai_pro_octagon(), builtin: true });
    v.push(ThemeEntry { name: String::from_str("monokai-pro-machine"), palette: monokai_pro_machine(), builtin: true });
    v.push(ThemeEntry { name: String::from_str("monokai-pro-ristretto"), palette: monokai_pro_ristretto(), builtin: true });
    v.push(ThemeEntry { name: String::from_str("monokai-pro-spectrum"), palette: monokai_pro_spectrum(), builtin: true });
    v.push(ThemeEntry { name: String::from_str("nightfox-carbonfox"), palette: nightfox_carbonfox(), builtin: true });
    v.push(ThemeEntry { name: String::from_str("nightfox-nightfox"), palette: nightfox_nightfox(), builtin: true });
    v.push(ThemeEntry { name: String::from_str("nightfox-duskfox"), palette: nightfox_duskfox(), builtin: true });
    v.push(ThemeEntry { name: String::from_str("nightfox-nordfox"), palette: nightfox_nordfox(), builtin: true });
    v.push(ThemeEntry { name: String::from_str("nightfox-terafox"), palette: nightfox_terafox(), builtin: true });
    v.push(ThemeEntry { name: String::from_str("nightfox-dayfox"), palette: nightfox_dayfox(), builtin: true });
    v.push(ThemeEntry { name: String::from_str("nord"), palette: nord(), builtin: true });
    v.push(ThemeEntry { name: String::from_str("one-dark"), palette: one_dark(), builtin: true });
    v.push(ThemeEntry { name: String::from_str("one-light"), palette: one_light(), builtin: true });
    v.push(ThemeEntry { name: String::from_str("rose-pine-main"), palette: rose_pine(), builtin: true });
    v.push(ThemeEntry { name: String::from_str("rose-pine-moon"), palette: rose_pine_moon(), builtin: true });
    v.push(ThemeEntry { name: String::from_str("rose-pine-dawn"), palette: rose_pine_dawn(), builtin: true });
    v.push(ThemeEntry { name: String::from_str("solarized-dark"), palette: solarized_dark(), builtin: true });
    v.push(ThemeEntry { name: String::from_str("solarized-light"), palette: solarized_light(), builtin: true });
    v.push(ThemeEntry { name: String::from_str("tokyo-night-night"), palette: tokyo_night(), builtin: true });
    v.push(ThemeEntry { name: String::from_str("tokyo-night-storm"), palette: tokyo_night_storm(), builtin: true });
    v.push(ThemeEntry { name: String::from_str("tokyo-night-moon"), palette: tokyo_night_moon(), builtin: true });
    v.push(ThemeEntry { name: String::from_str("tokyo-night-day"), palette: tokyo_night_day(), builtin: true });
    v
}

/// The names of a list of themes.
pub open spec fn theme_names(v: Seq<ThemeEntry>) -> Seq<Seq<char>> {
    v.map_values(|e: ThemeEntry| e.name@)
}

/// Adds a theme unless one with the same name is already listed; returns
/// whether it was added. Themes found on disk are skipped when their name
/// is already taken, so built-in themes cannot be replaced.
pub fn add_theme(all: &mut Vec<ThemeEntry>, theme: ThemeEntry) -> (added: bool)
    ensures
        added == !theme_names(old(all)@).contains(theme.name@),
        added ==> final(all)@ == old(all)@.push(theme),
        !added ==> final(all)@ == old(all)@,
{
    let mut i: usize = 0;
    while i < all.len()
        invariant
            i <= all.len(),
            forall|j: int| 0 <= j < i ==> all@[j].name@ != theme.name@,
        decreases all.len() - i,
    {
        if crate::text::str_eq(all[i].name.as_str(), theme.name.as_str()) {
            assert(theme_names(all@)[i as int] == theme.name@);
            return false;
        }
        i = i + 1;
    }
    proof {
        if theme_names(all@).contains(theme.name@) {
            let j = choose|j: int| 0 <= j < theme_names(all@).len() && theme_names(all@)[j] == theme.name@;
            assert(all@[j].name@ == theme.name@);
        }
    }
    all.push(theme);
    true
}

/// Theme names stay distinct: adding themes one by one through `add_theme`
/// never lists two themes under one name.
pub proof fn law_theme_names_distinct(before: Seq<ThemeEntry>, after: Seq<ThemeEntry>, theme: ThemeEntry)
    requires
        theme_names(before).no_duplicates(),
        (!theme_names(before).contains(theme.name@) && after == before.push(theme)) || (
        theme_names(before).contains(theme.name@) && after == before),
    ensures
        theme_names(after).no_duplicates(),
        theme_names(after).contains(theme.name@),
{
    if after == before.push(theme) {
        assert(theme_names(after) =~= theme_names(before).push(theme.name@));
        assert(theme_names(after)[before.len() as int] == theme.name@);
    }
}

/// Each built-in theme carries its own palette: the names are distinct, and
/// the theme listed under a name has the colors of the palette of that name,
/// wherever it stands in the list.
pub proof fn law_builtin_palettes_by_name()
    ensures
        builtin_names().no_duplicates(),
        forall|i: int| 0 <= i < builtin_names().len() && builtin_names()[i] == "wayle"@ ==> builtin_colors()[i] == wayle_colors(),
        forall|i: int| 0 <= i < builtin_names().len() && builtin_names()[i] == "catppuccin-mocha"@ ==> builtin_colors()[i] == catppuccin_colors(),
        forall|i: int| 0 <= i < builtin_names().len() && builtin_names()[i] == "catppuccin-macchiato"@ ==> builtin_colors()[i] == catppuccin_macchiato_colors(),
        forall|i: int| 0 <= i < builtin_names().len() && builtin_names()[i] == "catppuccin-frappe"@ ==> builtin_colors()[i] == catppuccin_frappe_colors(),
        forall|i: int| 0 <= i < builtin_names().len() && builtin_names()[i] == "catppuccin-latte"@ ==> builtin_colors()[i] == catppuccin_latte_colors(),
        forall|i: int| 0 <= i < builtin_names().len() && builtin_names()[i] == "dracula"@ ==> builtin_colors()[i] == dracula_colors(),
        forall|i: int| 0 <= i < builtin_names().len() && builtin_names()[i] == "everforest-dark"@ ==> builtin_colors()[i] == everforest_colors(),
        forall|i: int| 0 <= i < builtin_names().len() && builtin_names()[i] == "everforest-dark-hard"@ ==> builtin_colors()[i] == everforest_dark_hard_colors(),
        forall|i: int| 0 <= i < builtin_names().len() && builtin_names()[i] == "everforest-dark-soft"@ ==> builtin_colors()[i] == everforest_dark_soft_colors(),
        forall|i: int| 0 <= i < builtin_names().len() && builtin_names()[i] == "everforest-light"@ ==> builtin_colors()[i] == everforest_light_colors(),
        forall|i: int| 0 <= i < builtin_names().len() && builtin_names()[i] == "everforest-light-hard"@ ==> builtin_colors()[i] == everforest_light_hard_colors(),
        forall|i: int| 0 <= i < builtin_names().len() && builtin_names()[i] == "everforest-light-soft"@ ==> builtin_colors()[i] == everforest_light_soft_colors(),
        forall|i: int| 0 <= i < builtin_names().len() && builtin_names()[i] == "gruvbox-dark"@ ==> builtin_colors()[i] == gruvbox_colors(),
        forall|i: int| 0 <= i < builtin_names().len() && builtin_names()[i] == "gruvbox-dark-hard"@ ==> builtin_colors()[i] == gruvbox_dark_hard_colors(),
        forall|i: int| 0 <= i < builtin_names().len() && builtin_names()[i] == "gruvbox-dark-soft"@ ==> builtin_colors()[i] == gruvbox_dark_soft_colors(),
        forall|i: int| 0 <= i < builtin_names().len() && builtin_names()[i] == "gruvbox-light"@ ==> builtin_colors()[i] == gruvbox_light_colors(),
        forall|i: int| 0 <= i < builtin_names().len() && builtin_names()[i] == "gruvbox-light-hard"@ ==> builtin_colors()[i] == gruvbox_light_hard_colors(),
        forall|i: int| 0 <= i < builtin_names().len() && builtin_names()[i] == "gruvbox-light-soft"@ ==> builtin_colors()[i] == gruvbox_light_soft_colors(),
        forall|i: int| 0 <= i < builtin_names().len() && builtin_names()[i] == "kanagawa-wave"@ ==> builtin_colors()[i] == kanagawa_wave_colors(),
        forall|i: int| 0 <= i < builtin_names().len() && builtin_names()[i] == "kanagawa-dragon"@ ==> builtin_colors()[i] == kanagawa_dragon_colors(),
        forall|i: int| 0 <= i < builtin_names().len() && builtin_names()[i] == "kanagawa-lotus"@ ==> builtin_colors()[i] == kanagawa_lotus_colors(),
        forall|i: int| 0 <= i < builtin_names().len() && builtin_names()[i] == "monokai"@ ==> builtin_colors()[i] == monokai_colors(),
        forall|i: int| 0 <= i < builtin_names().len() && builtin_names()[i] == "monokai-pro-classic"@ ==> builtin_colors()[i] == monokai_pro_classic_colors(),
        forall|i: int| 0 <= i < builtin_names().len() && builtin_names()[i] == "monokai-pro-octagon"@ ==> builtin_colors()[i] == monokai_pro_octagon_colors(),
        forall|i: int| 0 <= i < builtin_names().len() && builtin_names()[i] == "monokai-pro-machine"@ ==> builtin_colors()[i] == monokai_pro_machine_colors(),
        forall|i: int| 0 <= i < builtin_names().len() && builtin_names()[i] == "monokai-pro-ristretto"@ ==> builtin_colors()[i] == monokai_pro_ristretto_colors(),
        forall|i: int| 0 <= i < builtin_names().len() && builtin_names()[i] == "monokai-pro-spectrum"@ ==> builtin_colors()[i] == monokai_pro_spectrum_colors(),
        forall|i: int| 0 <= i < builtin_names().len() && builtin_names()[i] == "nightfox-carbonfox"@ ==> builtin_colors()[i] == nightfox_carbonfox_colors(),
        forall|i: int| 0 <= i < builtin_names().len() && builtin_names()[i] == "nightfox-nightfox"@ ==> builtin_colors()[i] == nightfox_nightfox_colors(),
        forall|i: int| 0 <= i < builtin_names().len() && builtin_names()[i] == "nightfox-duskfox"@ ==> builtin_colors()[i] == nightfox_duskfox_colors(),
        forall|i: int| 0 <= i < builtin_names().len() && builtin_names()[i] == "nightfox-nordfox"@ ==> builtin_colors()[i] == nightfox_nordfox_colors(),
        forall|i: int| 0 <= i < builtin_names().len() && builtin_names()[i] == "nightfox-terafox"@ ==> builtin_colors()[i] == nightfox_terafox_colors(),
        forall|i: int| 0 <= i < builtin_names().len() && builtin_names()[i] == "nightfox-dayfox"@ ==> builtin_colors()[i] == nightfox_dayfox_colors(),
        forall|i: int| 0 <= i < builtin_names().len() && builtin_names()[i] == "nord"@ ==> builtin_colors()[i] == nord_colors(),
        forall|i: int| 0 <= i < builtin_names().len() && builtin_names()[i] == "one-dark"@ ==> builtin_colors()[i] == one_dark_colors(),
        forall|i: int| 0 <= i < builtin_names().len() && builtin_names()[i] == "one-light"@ ==> builtin_colors()[i] == one_light_colors(),
        forall|i: int| 0 <= i < builtin_names().len() && builtin_names()[i] == "rose-pine-main"@ ==> builtin_colors()[i] == rose_pine_colors(),
        forall|i: int| 0 <= i < builtin_names().len() && builtin_names()[i] == "rose-pine-moon"@ ==> builtin_colors()[i] == rose_pine_moon_colors(),
        forall|i: int| 0 <= i < builtin_names().len() && builtin_names()[i] == "rose-pine-dawn"@ ==> builtin_colors()[i] == rose_pine_dawn_colors(),
        forall|i: int| 0 <= i < builtin_names().len() && builtin_names()[i] == "solarized-dark"@ ==> builtin_colors()[i] == solarized_dark_colors(),
        forall|i: int| 0 <= i < builtin_names().len() && builtin_names()[i] == "solarized-light"@ ==> builtin_colors()[i] == solarized_light_colors(),
        forall|i: int| 0 <= i < builtin_names().len() && builtin_names()[i] == "tokyo-night-night"@ ==> builtin_colors()[i] == tokyo_night_colors(),
        forall|i: int| 0 <= i < builtin_names().len() && builtin_names()[i] == "tokyo-night-storm"@ ==> builtin_colors()[i] == tokyo_night_storm_colors(),
        forall|i: int| 0 <= i < builtin_names().len() && builtin_names()[i] == "tokyo-night-moon"@ ==> builtin_colors()[i] == tokyo_night_moon_colors(),
        forall|i: int| 0 <= i < builtin_names().len() && builtin_names()[i] == "tokyo-night-day"@ ==> builtin_colors()[i] == tokyo_night_day_colors(),
{
    reveal_strlit("wayle");
    reveal_strlit("catppuccin-mocha");
    reveal_strlit("catppuccin-macchiato");
    reveal_strlit("catppuccin-frappe");
    reveal_strlit("catppuccin-latte");
    reveal_strlit("dracula");
    reveal_strlit("everforest-dark");
    reveal_strlit("everforest-dark-hard");
    reveal_strlit("everforest-dark-soft");
    reveal_strlit("everforest-light");
    reveal_strlit("everforest-light-hard");
    reveal_strlit("everforest-light-soft");
    reveal_strlit("gruvbox-dark");
    reveal_strlit("gruvbox-dark-hard");
    reveal_strlit("gruvbox-dark-soft");
    reveal_strlit("gruvbox-light");
    reveal_strlit("gruvbox-light-hard");
    reveal_strlit("gruvbox-light-soft");
    reveal_strlit("kanagawa-wave");
    reveal_strlit("kanagawa-dragon");
    reveal_strlit("kanagawa-lotus");
    reveal_strlit("monokai");
    reveal_strlit("monokai-pro-classic");
    reveal_strlit("monokai-pro-octagon");
    reveal_strlit("monokai-pro-machine");
    reveal_strlit("monokai-pro-ristretto");
    reveal_strlit("monokai-pro-spectrum");
    reveal_strlit("nightfox-carbonfox");
    reveal_strlit("nightfox-nightfox");
    reveal_strlit("nightfox-duskfox");
    reveal_strlit("nightfox-nordfox");
    reveal_strlit("nightfox-terafox");
    reveal_strlit("nightfox-dayfox");
    reveal_strlit("nord");
    reveal_strlit("one-dark");
    reveal_strlit("one-light");
    reveal_strlit("rose-pine-main");
    reveal_strlit("rose-pine-moon");
    reveal_strlit("rose-pine-dawn");
    reveal_strlit("solarized-dark");
    reveal_strlit("solarized-light");
    reveal_strlit("tokyo-night-night");
    reveal_strlit("tokyo-night-storm");
    reveal_strlit("tokyo-night-moon");
    reveal_strlit("tokyo-night-day");
    assert("wayle"@.len() == 5);
    assert("catppuccin-mocha"@.len() == 16);
    assert("catppuccin-macchiato"@.len() == 20);
    assert("catppuccin-frappe"@.len() == 17);
    assert("catppuccin-latte"@.len() == 16);
    assert("dracula"@.len() == 7);
    assert("everforest-dark"@.len() == 15);
    assert("everforest-dark-hard"@.len() == 20);
    assert("everforest-dark-soft"@.len() == 20);
    assert("everforest-light"@.len() == 16);
    assert("everforest-light-hard"@.len() == 21);
    assert("everforest-light-soft"@.len() == 21);
    assert("gruvbox-dark"@.len() == 12);
    assert("gruvbox-dark-hard"@.len() == 17);
    assert("gruvbox-dark-soft"@.len() == 17);
    assert("gruvbox-light"@.len() == 13);
    assert("gruvbox-light-hard"@.len() == 18);
    assert("gruvbox-light-soft"@.len() == 18);
    assert("kanagawa-wave"@.len() == 13);
    assert("kanagawa-dragon"@.len() == 15);
    assert("kanagawa-lotus"@.len() == 14);
    assert("monokai"@.len() == 7);
    assert("monokai-pro-classic"@.len() == 19);
    assert("monokai-pro-octagon"@.len() == 19);
    assert("monokai-pro-machine"@.len() == 19);
    assert("monokai-pro-ristretto"@.len() == 21);
    assert("monokai-pro-spectrum"@.len() == 20);
    assert("nightfox-carbonfox"@.len() == 18);
    assert("nightfox-nightfox"@.len() == 17);
    assert("nightfox-duskfox"@.len() == 16);
    assert("nightfox-nordfox"@.len() == 16);
    assert("nightfox-terafox"@.len() == 16);
    assert("nightfox-dayfox"@.len() == 15);
    assert("nord"@.len() == 4);
    assert("one-dark"@.len() == 8);
    assert("one-light"@.len() == 9);
    assert("rose-pine-main"@.len() == 14);
    assert("rose-pine-moon"@.len() == 14);
    assert("rose-pine-dawn"@.len() == 14);
    assert("solarized-dark"@.len() == 14);
    assert("solarized-light"@.len() == 15);
    assert("tokyo-night-night"@.len() == 17);
    assert("tokyo-night-storm"@.len() == 17);
    assert("tokyo-night-moon"@.len() == 16);
    assert("tokyo-night-day"@.len() == 15);
    assert("catppuccin-frappe"@[0] == 'c');
    assert("catppuccin-latte"@[0] == 'c');
    assert("catppuccin-latte"@[11] == 'l');
    assert("catppuccin-macchiato"@[0] == 'c');
    assert("catppuccin-mocha"@[0] == 'c');
    assert("catppuccin-mocha"@[11] == 'm');
    assert("dracula"@[0] == 'd');
    assert("everforest-dark"@[0] == 'e');
    assert("everforest-dark-hard"@[0] == 'e');
    assert("everforest-dark-hard"@[16] == 'h');
    assert("everforest-dark-soft"@[0] == 'e');
    assert("everforest-dark-soft"@[16] == 's');
    assert("everforest-light"@[0] == 'e');
    assert("everforest-light-hard"@[0] == 'e');
    assert("everforest-light-hard"@[17] == 'h');
    assert("everforest-light-soft"@[0] == 'e');
    assert("everforest-light-soft"@[17] == 's');
    assert("gruvbox-dark-hard"@[0] == 'g');
    assert("gruvbox-dark-hard"@[13] == 'h');
    assert("gruvbox-dark-soft"@[0] == 'g');
    assert("gruvbox-dark-soft"@[13] == 's');
    assert("gruvbox-light"@[0] == 'g');
    assert("gruvbox-light-hard"@[0] == 'g');
    assert("gruvbox-light-hard"@[14] == 'h');
    assert("gruvbox-light-soft"@[0] == 'g');
    assert("gruvbox-light-soft"@[14] == 's');
    assert("kanagawa-dragon"@[0] == 'k');
    assert("kanagawa-lotus"@[0] == 'k');
    assert("kanagawa-wave"@[0] == 'k');
    assert("monokai"@[0] == 'm');
    assert("monokai-pro-classic"@[12] == 'c');
    assert("monokai-pro-machine"@[12] == 'm');
    assert("monokai-pro-octagon"@[12] == 'o');
    assert("monokai-pro-ristretto"@[0] == 'm');
    assert("monokai-pro-spectrum"@[0] == 'm');
    assert("nightfox-carbonfox"@[0] == 'n');
    assert("nightfox-dayfox"@[0] == 'n');
    assert("nightfox-duskfox"@[0] == 'n');
    assert("nightfox-duskfox"@[9] == 'd');
    assert("nightfox-nightfox"@[0] == 'n');
    assert("nightfox-nordfox"@[0] == 'n');
    assert("nightfox-nordfox"@[9] == 'n');
    assert("nightfox-terafox"@[0] == 'n');
    assert("nightfox-terafox"@[9] == 't');
    assert("rose-pine-dawn"@[0] == 'r');
    assert("rose-pine-dawn"@[10] == 'd');
    assert("rose-pine-main"@[0] == 'r');
    assert("rose-pine-main"@[10] == 'm');
    assert("rose-pine-main"@[11] == 'a');
    assert("rose-pine-moon"@[0] == 'r');
    assert("rose-pine-moon"@[10] == 'm');
    assert("rose-pine-moon"@[11] == 'o');
    assert("solarized-dark"@[0] == 's');
    assert("solarized-light"@[0] == 's');
    assert("tokyo-night-day"@[0] == 't');
    assert("tokyo-night-moon"@[0] == 't');
    assert("tokyo-night-night"@[0] == 't');
    assert("tokyo-night-night"@[12] == 'n');
    assert("tokyo-night-storm"@[0] == 't');
    assert("tokyo-night-storm"@[12] == 's');
    assert(builtin_names().no_duplicates());
}

} // verus!
