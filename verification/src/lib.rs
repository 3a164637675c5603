//! Configuration logic for the Wayle desktop shell: layered config
//! properties, bar layout resolution, click-action grammars, validated
//! numeric settings, theme palettes and the capture-thread protocol.

pub mod cava;
pub mod property;
pub mod text;
pub mod bar;
pub mod resolve;
pub mod click_action;
pub mod numbers;
pub mod hyprland_workspaces;
pub mod niri_workspaces;
pub mod notification;
pub mod custom;
pub mod general;
pub mod dock;
pub mod media;
pub mod dropdowns;
pub mod docs;
pub mod error;
pub mod enum_variants;
pub mod wayle_theme;
pub mod palettes;
pub mod capture;
pub mod watcher;
pub mod schema;
pub mod ext_workspaces;
pub mod toml_doc;
pub mod path_names;
