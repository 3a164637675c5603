use wayle_config::bar::{
    BarButtonVariant, BarItem, BarLayout, BarModule, BarModuleNameError, BorderLocation,
    IconPosition, Location, ModuleRef, ShadowPreset,
};

#[test]
fn builtin_names_are_kebab_case() {
    assert_eq!(BarModule::CpuChart.to_config_name(), "cpu-chart");
    assert_eq!(BarModule::HyprlandWorkspaces.to_config_name(), "hyprland-workspaces");
    assert_eq!(BarModule::WorldClock.to_config_name(), "world-clock");
    assert_eq!(BarModule::Battery.to_config_name(), "battery");
}

#[test]
fn custom_modules_use_prefix() {
    let m = BarModule::Custom(String::from("gpu-temp"));
    assert_eq!(m.to_config_name(), "custom-gpu-temp");
    assert_eq!(m.custom_id(), Some("gpu-temp"));
    assert_eq!(BarModule::Clock.custom_id(), None);
}

#[test]
fn parse_config_name_roundtrips() {
    for name in ["battery", "keybind-mode", "idle-inhibit", "window-title", "custom-x"] {
        let m = BarModule::parse_config_name(name).unwrap();
        assert_eq!(m.to_config_name(), name);
    }
    assert_eq!(
        BarModule::parse_config_name("custom-weather"),
        Ok(BarModule::Custom(String::from("weather")))
    );
}

#[test]
fn parse_config_name_errors() {
    assert_eq!(
        BarModule::parse_config_name("custom-"),
        Err(BarModuleNameError::EmptyCustomId)
    );
    assert_eq!(
        BarModule::parse_config_name("Battery"),
        Err(BarModuleNameError::UnknownModule(String::from("Battery")))
    );
    assert_eq!(
        BarModule::parse_config_name(""),
        Err(BarModuleNameError::UnknownModule(String::new()))
    );
}

#[test]
fn module_refs_expose_module_and_class() {
    let plain = ModuleRef::Plain(BarModule::Clock);
    assert_eq!(plain.module(), &BarModule::Clock);
    assert_eq!(plain.class(), None);
    let classed = ModuleRef::Classed(wayle_config::bar::ClassedModule {
        module: BarModule::Ram,
        class: String::from("accent"),
    });
    assert_eq!(classed.module(), &BarModule::Ram);
    assert_eq!(classed.class(), Some("accent"));
    assert_eq!(classed.duplicate(), classed);
}

#[test]
fn default_layout_matches_stock_bar() {
    let l = BarLayout::default();
    assert_eq!(l.monitor, "*");
    assert_eq!(l.extends, None);
    assert!(l.show);
    assert_eq!(l.left, vec![BarItem::Module(ModuleRef::Plain(BarModule::Media))]);
    assert_eq!(l.center, vec![BarItem::Module(ModuleRef::Plain(BarModule::Clock))]);
    assert_eq!(l.right.len(), 5);
    assert_eq!(l.right[4], BarItem::Module(ModuleRef::Plain(BarModule::Volume)));
    assert_eq!(l.duplicate(), l);
}

#[test]
fn css_classes() {
    assert_eq!(Location::Top.css_class(), "top");
    assert!(Location::Left.is_vertical());
    assert!(!Location::Bottom.is_vertical());
    assert_eq!(BorderLocation::NoBorder.css_class(), None);
    assert_eq!(BorderLocation::All.css_class(), Some("border-all"));
    assert_eq!(BarButtonVariant::BlockPrefix.css_class(), "block-prefix");
    assert_eq!(IconPosition::End.css_class(), Some("icon-end"));
    assert_eq!(IconPosition::Start.css_class(), None);
}

#[test]
fn shadow_presets() {
    assert_eq!(ShadowPreset::NoShadow.margin_px(), 0);
    assert_eq!(ShadowPreset::Drop.margin_px(), 4);
    assert_eq!(ShadowPreset::NoShadow.css_shadow(Location::Top), "none");
    assert_eq!(
        ShadowPreset::Drop.css_shadow(Location::Bottom),
        "0 -1px 2px 1px rgba(0, 0, 0, 0.25)"
    );
    assert_eq!(
        ShadowPreset::Drop.css_shadow(Location::Right),
        "-1px 0 2px 1px rgba(0, 0, 0, 0.25)"
    );
}
