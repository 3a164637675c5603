use std::path::Path;
use wayle_config::path_names::{enter_import, leave_import, path_components, paths_equal};
use wayle_config::watcher::{accumulate_paths, same_path};

fn p(s: &str) -> Vec<u8> {
    s.as_bytes().to_vec()
}

#[test]
fn paths_compare_by_component() {
    let cases = [
        ("a/b", "a//b"),
        ("/x/y/", "/x/y"),
        ("a/./b", "a/b"),
        ("./a", "a"),
        ("/a", "a"),
        ("a/..", "a"),
        ("", "."),
        ("/", "//"),
        ("a/.", "a"),
        ("./", "."),
    ];
    for (a, b) in cases {
        assert_eq!(paths_equal(&p(a), &p(b)), Path::new(a) == Path::new(b), "{a} vs {b}");
        assert_eq!(same_path(&p(a), &p(b)), Path::new(a) == Path::new(b), "{a} vs {b}");
    }
    assert!(paths_equal(&p("a/b"), &p("a//b")));
    assert!(!paths_equal(&p("./a"), &p("a")));
}

#[test]
fn components_of_a_path() {
    assert_eq!(path_components(&p("/usr//lib/./x/")), vec![p("/"), p("usr"), p("lib"), p("x")]);
    assert_eq!(path_components(&p("./a")), vec![p("."), p("a")]);
    assert_eq!(path_components(&p("")), Vec::<Vec<u8>>::new());
}

#[test]
fn accumulate_treats_equal_paths_as_one() {
    let mut pending = vec![p("/c/a.toml")];
    accumulate_paths(&mut pending, vec![p("/c//a.toml"), p("/c/b.toml"), p("/c/./b.toml")]);
    assert_eq!(pending, vec![p("/c/a.toml"), p("/c/b.toml")]);
}

#[test]
fn import_chain_detects_cycles() {
    let mut chain = Vec::new();
    assert!(enter_import(&mut chain, &p("/cfg/config.toml")));
    assert!(enter_import(&mut chain, &p("/cfg/colors.toml")));
    assert!(!enter_import(&mut chain, &p("/cfg//config.toml")));
    assert_eq!(chain.len(), 2);
    leave_import(&mut chain);
    assert_eq!(chain, vec![p("/cfg/config.toml")]);
    assert!(enter_import(&mut chain, &p("/cfg/colors.toml")));
}
