use wayle_config::watcher::{
    accumulate_paths, same_path, DebounceAction, DebounceEvent, Debouncer, PathClass, ReloadPlan,
};

fn p(s: &str) -> Vec<u8> {
    s.as_bytes().to_vec()
}

fn class(is_env: bool, is_theme: bool, is_runtime: bool) -> PathClass {
    PathClass { is_env, is_theme, is_runtime }
}

#[test]
fn accumulate_keeps_order_and_skips_duplicates() {
    let mut pending = vec![p("a.toml")];
    accumulate_paths(&mut pending, vec![p("b.toml"), p("a.toml"), p("c.toml"), p("b.toml")]);
    assert_eq!(pending, vec![p("a.toml"), p("b.toml"), p("c.toml")]);
    assert!(same_path(&p("x"), &p("x")));
    assert!(!same_path(&p("x"), &p("xy")));
}

#[test]
fn reload_plan_main_config() {
    let plan = ReloadPlan::for_changes(&vec![class(false, false, true), class(false, false, false)]);
    assert_eq!(
        plan,
        ReloadPlan { reload_env: false, reload_themes: false, reload_main: true, reload_runtime_only: false }
    );
}

#[test]
fn reload_plan_runtime_only() {
    let plan = ReloadPlan::for_changes(&vec![class(false, false, true)]);
    assert!(plan.reload_runtime_only && !plan.reload_main);
}

#[test]
fn reload_plan_env_and_themes() {
    let plan = ReloadPlan::for_changes(&vec![class(true, false, false), class(false, true, false)]);
    assert_eq!(
        plan,
        ReloadPlan { reload_env: true, reload_themes: true, reload_main: false, reload_runtime_only: false }
    );
    let none = ReloadPlan::for_changes(&vec![]);
    assert_eq!(
        none,
        ReloadPlan { reload_env: false, reload_themes: false, reload_main: false, reload_runtime_only: false }
    );
}

#[test]
fn debouncer_batches_until_quiet() {
    let mut d = Debouncer::new();
    let a = d.on_event(DebounceEvent::FileEvent { reloadable: true, paths: vec![p("x")] });
    assert!(matches!(a, DebounceAction::RestartTimer));
    let a = d.on_event(DebounceEvent::FileEvent { reloadable: false, paths: vec![p("ignored")] });
    assert!(matches!(a, DebounceAction::KeepWaiting));
    let a = d.on_event(DebounceEvent::FileEvent { reloadable: true, paths: vec![p("y"), p("x")] });
    assert!(matches!(a, DebounceAction::RestartTimer));
    match d.on_event(DebounceEvent::Quiet) {
        DebounceAction::Flush(paths) => assert_eq!(paths, vec![p("x"), p("y")]),
        other => panic!("unexpected {other:?}"),
    }
    assert!(matches!(d.on_event(DebounceEvent::Quiet), DebounceAction::Stop));
}
