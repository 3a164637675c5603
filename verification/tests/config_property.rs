use wayle_config::property::{
    ClearAllRuntime, ClearRuntimeByPath, CommitConfigReload, ConfigProperty, Removed,
    ResetConfigLayer, ResetRuntimeLayer, ValueSource,
};

#[test]
fn new_uses_default_value() {
    let prop = ConfigProperty::new(42);

    assert_eq!(prop.get(), 42);
    assert_eq!(prop.source(), ValueSource::Default);
}

#[test]
fn set_config_changes_effective_value() {
    let mut prop = ConfigProperty::new(10);

    prop.stage_config(20);

    assert_eq!(prop.get(), 20);
    assert_eq!(prop.source(), ValueSource::Config);
    assert_eq!(prop.config(), Some(20));
}

#[test]
fn set_runtime_overrides_config() {
    let mut prop = ConfigProperty::new(10);
    prop.stage_config(20);

    prop.set(30);

    assert_eq!(prop.get(), 30);
    assert_eq!(prop.source(), ValueSource::Overridden);
    assert_eq!(prop.config(), Some(20));
    assert_eq!(prop.runtime(), Some(30));
}

#[test]
fn set_runtime_without_config_is_custom() {
    let mut prop = ConfigProperty::new(10);

    prop.set(30);

    assert_eq!(prop.get(), 30);
    assert_eq!(prop.source(), ValueSource::RuntimeOnly);
}

#[test]
fn clear_runtime_falls_back_to_config() {
    let mut prop = ConfigProperty::new(10);
    prop.stage_config(20);
    prop.set(30);

    prop.clear_runtime();

    assert_eq!(prop.get(), 20);
    assert_eq!(prop.source(), ValueSource::Config);
}

#[test]
fn clear_runtime_falls_back_to_default() {
    let mut prop = ConfigProperty::new(10);
    prop.set(30);

    prop.clear_runtime();

    assert_eq!(prop.get(), 10);
    assert_eq!(prop.source(), ValueSource::Default);
}

#[test]
fn default_returns_original_default() {
    let mut prop = ConfigProperty::new(42);
    prop.stage_config(100);
    prop.set(200);

    assert_eq!(*prop.default(), 42);
}

#[test]
fn reset_config_layer_clears_without_recomputing() {
    let mut prop = ConfigProperty::new(10);
    prop.stage_config(20);
    assert_eq!(prop.get(), 20);

    prop.reset_config_layer();

    assert_eq!(prop.config(), None);
    assert_eq!(
        prop.get(),
        20,
        "effective value should NOT change until commit"
    );
}

#[test]
fn commit_config_reload_recomputes_effective() {
    let mut prop = ConfigProperty::new(10);
    prop.stage_config(20);
    prop.reset_config_layer();
    assert_eq!(prop.get(), 20);

    prop.commit_config_reload();

    assert_eq!(prop.get(), 10);
    assert_eq!(prop.source(), ValueSource::Default);
}

#[test]
fn reset_apply_commit_reverts_removed_config_to_default() {
    let mut prop = ConfigProperty::new(10);
    prop.stage_config(20);
    assert_eq!(prop.get(), 20);

    prop.reset_config_layer();
    prop.commit_config_reload();

    assert_eq!(prop.get(), 10);
    assert_eq!(prop.source(), ValueSource::Default);
}

#[test]
fn reset_apply_commit_preserves_runtime_override() {
    let mut prop = ConfigProperty::new(10);
    prop.stage_config(20);
    prop.set(30);
    assert_eq!(prop.source(), ValueSource::Overridden);

    prop.reset_config_layer();
    prop.commit_config_reload();

    assert_eq!(prop.get(), 30);
    assert_eq!(prop.source(), ValueSource::RuntimeOnly);
    assert_eq!(prop.runtime(), Some(30));
    assert_eq!(prop.config(), None);
}

#[test]
fn reset_apply_commit_with_new_config_value() {
    let mut prop = ConfigProperty::new(10);
    prop.stage_config(20);

    prop.reset_config_layer();
    prop.stage_config(50);
    prop.commit_config_reload();

    assert_eq!(prop.get(), 50);
    assert_eq!(prop.source(), ValueSource::Config);
}

#[test]
fn reset_runtime_layer_clears_without_recomputing() {
    let mut prop = ConfigProperty::new(10);
    prop.set(30);
    assert_eq!(prop.get(), 30);

    prop.reset_runtime_layer();

    assert_eq!(prop.runtime(), None);
    assert_eq!(
        prop.get(),
        30,
        "effective value should NOT change until commit"
    );
}

#[test]
fn reset_runtime_then_commit_falls_back_to_config() {
    let mut prop = ConfigProperty::new(10);
    prop.stage_config(20);
    prop.set(30);
    assert_eq!(prop.get(), 30);
    assert_eq!(prop.source(), ValueSource::Overridden);

    prop.reset_runtime_layer();
    prop.commit_config_reload();

    assert_eq!(prop.get(), 20);
    assert_eq!(prop.source(), ValueSource::Config);
}

#[test]
fn reset_runtime_then_commit_falls_back_to_default() {
    let mut prop = ConfigProperty::new(10);
    prop.set(30);
    assert_eq!(prop.source(), ValueSource::RuntimeOnly);

    prop.reset_runtime_layer();
    prop.commit_config_reload();

    assert_eq!(prop.get(), 10);
    assert_eq!(prop.source(), ValueSource::Default);
}

#[test]
fn set_notifies_only_on_change() {
    let mut prop = ConfigProperty::new(10);
    assert_eq!(prop.revision(), 0);
    prop.set(10);
    assert_eq!(prop.revision(), 0);
    prop.set(11);
    assert_eq!(prop.revision(), 1);
    prop.set(11);
    assert_eq!(prop.revision(), 1);
}

#[test]
fn clear_runtime_always_notifies() {
    let mut prop = ConfigProperty::new(10);
    prop.clear_runtime();
    assert_eq!(prop.revision(), 1);
    assert_eq!(prop.get(), 10);
}

#[test]
fn staging_is_silent_until_commit() {
    let mut prop = ConfigProperty::new(1);
    prop.stage_config(2);
    prop.stage_runtime(3);
    assert_eq!(prop.revision(), 0);
    assert_eq!(prop.get(), 2);
    prop.commit_config_reload();
    assert_eq!(prop.get(), 3);
    assert_eq!(prop.revision(), 1);
    prop.commit_config_reload();
    assert_eq!(prop.revision(), 1);
}

#[test]
fn apply_config_value_reports_shadowing() {
    let mut prop = ConfigProperty::new(1);
    assert!(!prop.apply_config_value(2));
    prop.set(5);
    assert!(prop.apply_config_value(3));
    assert_eq!(prop.config(), Some(3));
    assert_eq!(prop.get(), 5);
}

#[test]
fn clear_all_and_by_path() {
    let mut prop = ConfigProperty::new(1);
    prop.set(4);
    assert_eq!(prop.clear_runtime_by_path(""), Ok(true));
    assert_eq!(prop.get(), 1);
    assert_eq!(prop.clear_runtime_by_path(""), Ok(false));
    assert!(prop.clear_runtime_by_path("nested").is_err());
    prop.set(6);
    prop.clear_all_runtime();
    assert_eq!(prop.runtime(), None);
    assert_eq!(prop.get(), 1);
}

#[test]
fn i18n_key_is_kept() {
    let prop = ConfigProperty::with_i18n_key(String::from("a"), "settings-label");
    assert_eq!(prop.i18n_key(), Some("settings-label"));
    assert_eq!(ConfigProperty::new(true).i18n_key(), None);
}

#[test]
fn removed_field_ignores_everything() {
    let mut r: Removed<i32> = Removed::default();
    r.reset_config_layer();
    r.reset_runtime_layer();
    r.commit_config_reload();
    r.clear_all_runtime();
    assert_eq!(r.clear_runtime_by_path("anything"), Ok(false));
}

#[test]
fn apply_runtime_decoded_stages_or_reports() {
    let mut prop = ConfigProperty::new(1);
    assert_eq!(prop.apply_runtime_decoded(Ok(7), "bar.size"), Ok(()));
    assert_eq!(prop.runtime(), Some(7));
    assert_eq!(prop.get(), 1);
    assert_eq!(prop.revision(), 0);
    let err = prop.apply_runtime_decoded(Err(String::from("expected an integer")), "bar.size");
    assert_eq!(err, Err(String::from("invalid value for 'bar.size': expected an integer")));
    assert_eq!(prop.runtime(), Some(7));
    prop.commit_config_reload();
    assert_eq!(prop.get(), 7);
}
