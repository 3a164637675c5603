use wayle_config::schema::{
    root_schema_id, schema_needs_update, theme_schema_id, tombi_needs_update, TOMBI_CONFIG,
};

#[test]
fn schema_ids_carry_version() {
    assert_eq!(root_schema_id("0.1.0"), "wayle-config-0.1.0");
    assert_eq!(theme_schema_id("2.3.4"), "wayle-theme-2.3.4");
}

#[test]
fn schema_rewritten_when_id_missing() {
    let id = root_schema_id("1.0.0");
    assert!(schema_needs_update(None, &id));
    assert!(schema_needs_update(Some("{\"$id\": \"wayle-config-0.9.0\"}"), &id));
    assert!(!schema_needs_update(Some("{\"$id\": \"wayle-config-1.0.0\"}"), &id));
}

#[test]
fn tombi_config_rewritten_when_different() {
    assert!(tombi_needs_update(None));
    assert!(tombi_needs_update(Some("[schema]\nenabled = false\n")));
    assert!(!tombi_needs_update(Some(TOMBI_CONFIG)));
    assert!(TOMBI_CONFIG.contains("./themes/schema.json"));
}
