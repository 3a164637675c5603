use wayle_config::error::InvalidFieldReason;
use wayle_config::toml_doc::{
    extract_import_paths, get_key_exec, import_paths_of, parse_document, split_path, value_at_path,
    ImportListError, TomlValue,
};

fn table(entries: Vec<(&str, TomlValue)>) -> TomlValue {
    TomlValue::Table(entries.into_iter().map(|(k, v)| (k.to_string(), v)).collect())
}

#[test]
fn imports_are_read_in_order() {
    let paths = extract_import_paths("imports = [\"colors\", 3, \"bar.toml\"]\n[bar]\nx = 1\n").unwrap();
    assert_eq!(paths, vec![String::from("colors"), String::from("bar.toml")]);
}

#[test]
fn no_imports_key_means_none() {
    assert_eq!(extract_import_paths("[bar]\nx = 1\n").unwrap(), Vec::<String>::new());
    assert_eq!(extract_import_paths("imports = \"one\"\n").unwrap(), Vec::<String>::new());
    assert_eq!(extract_import_paths("").unwrap(), Vec::<String>::new());
}

#[test]
fn invalid_toml_is_an_error() {
    let r = extract_import_paths("imports = [");
    assert!(matches!(r, Err(ImportListError::TomlParseInline(_))));
}

#[test]
fn import_paths_of_a_value() {
    let doc = table(vec![(
        "imports",
        TomlValue::Array(vec![TomlValue::Str(String::from("a")), TomlValue::Boolean(true)]),
    )]);
    assert_eq!(import_paths_of(&doc), vec![String::from("a")]);
    assert_eq!(import_paths_of(&TomlValue::Integer(1)), Vec::<String>::new());
}

#[test]
fn split_path_keeps_empty_pieces() {
    assert_eq!(split_path("battery.enabled"), vec!["battery", "enabled"]);
    assert_eq!(split_path("a"), vec!["a"]);
    assert_eq!(split_path(""), vec![""]);
    assert_eq!(split_path("a..b."), vec!["a", "", "b", ""]);
    for s in ["x.y.z", ".", "..", "abc"] {
        let expected: Vec<&str> = s.split('.').collect();
        assert_eq!(split_path(s), expected);
    }
}

#[test]
fn value_at_path_walks_tables() {
    let doc = table(vec![(
        "battery",
        table(vec![("enabled", TomlValue::Boolean(true)), ("level", TomlValue::Integer(5))]),
    )]);
    assert!(matches!(value_at_path(&doc, "battery.enabled"), Ok(TomlValue::Boolean(true))));
    assert!(matches!(value_at_path(&doc, "battery.level"), Ok(TomlValue::Integer(5))));
    assert!(matches!(value_at_path(&doc, "battery"), Ok(TomlValue::Table(_))));
    assert!(matches!(get_key_exec(&doc, "battery"), Some(TomlValue::Table(_))));
    assert!(get_key_exec(&doc, "clock").is_none());
}

#[test]
fn value_at_path_reports_missing_piece() {
    let doc = table(vec![("battery", table(vec![("enabled", TomlValue::Boolean(true))]))]);
    let e = value_at_path(&doc, "battery.missing.deeper").unwrap_err();
    assert_eq!(e.field, "missing");
    assert_eq!(e.component, "battery.missing.deeper");
    assert_eq!(e.reason, InvalidFieldReason::NotFound);
    let e = value_at_path(&doc, "battery.enabled.x").unwrap_err();
    assert_eq!(e.field, "x");
}

#[test]
fn parse_document_reads_values() {
    let doc = parse_document("[bar]\nsize = 3\nname = \"x\"\n").unwrap();
    assert!(matches!(value_at_path(&doc, "bar.size"), Ok(TomlValue::Integer(3))));
    assert!(matches!(value_at_path(&doc, "bar.name"), Ok(TomlValue::Str(s)) if s == "x"));
    assert!(parse_document("a = ").is_err());
}
