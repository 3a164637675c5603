//! Decisions of the config directory watcher: collecting changed paths
//! while file events settle, and choosing what to reload for them. Paths
//! are held as the bytes of their file-system names.

use vstd::prelude::*;
use crate::path_names::{bytes_view, holds_path, keys_of, path_key, paths_equal};

verus! {

/// Whether two paths are the same path, compared component by component.
pub fn same_path(a: &Vec<u8>, b: &Vec<u8>) -> (r: bool)
    ensures
        r == (path_key(a@) == path_key(b@)),
{
    paths_equal(a, b)
}

/// The byte strings of a list of paths.
pub open spec fn paths_view(v: Seq<Vec<u8>>) -> Seq<Seq<u8>> {
    bytes_view(v)
}

/// `pending` extended with each new path that does not equal one it holds
/// already, in order.
pub open spec fn accumulate_spec(pending: Seq<Seq<u8>>, new_paths: Seq<Seq<u8>>) -> Seq<Seq<u8>>
    decreases new_paths.len(),
{
    if new_paths.len() == 0 {
        pending
    } else {
        let next = if keys_of(pending).contains(path_key(new_paths[0])) {
            pending
        } else {
            pending.push(new_paths[0])
        };
        accumulate_spec(next, new_paths.drop_first())
    }
}

/// Adds each new path to the pending list unless it is already there.
pub fn accumulate_paths(pending: &mut Vec<Vec<u8>>, new_paths: Vec<Vec<u8>>)
    ensures
        paths_view(final(pending)@) == accumulate_spec(paths_view(old(pending)@), paths_view(new_paths@)),
{
    let ghost all = paths_view(new_paths@);
    let mut rest = new_paths;
    let mut reversed: Vec<Vec<u8>> = Vec::new();
    while rest.len() > 0
        invariant
            rest@.len() + reversed@.len() == all.len(),
            paths_view(rest@) == all.take(rest@.len() as int),
            forall|j: int| 0 <= j < reversed@.len() ==> #[trigger] reversed@[j]@ == all[all.len() - 1 - j],
        decreases rest@.len(),
    {
        let ghost before = rest@;
        let p = rest.pop().unwrap();
        proof {
            assert(paths_view(before)[before.len() - 1] == p@);
            assert(paths_view(rest@) =~= paths_view(before).take(before.len() - 1));
        }
        reversed.push(p);
    }
    let n = reversed.len();
    let mut i: usize = 0;
    proof {
        assert(all.skip(0) =~= all);
    }
    while i < n
        invariant
            n == all.len(),
            reversed@.len() == n - i,
            forall|j: int| 0 <= j < reversed@.len() ==> #[trigger] reversed@[j]@ == all[n - 1 - j],
            accumulate_spec(paths_view(old(pending)@), all) == accumulate_spec(
                paths_view(pending@),
                all.skip(i as int),
            ),
        decreases n - i,
    {
        let p = reversed.pop().unwrap();
        assert(p@ == all[i as int]);
        assert(all.skip(i as int).drop_first() =~= all.skip(i + 1));
        if !holds_path(pending, &p) {
            let ghost before = paths_view(pending@);
            pending.push(p);
            assert(paths_view(pending@) =~= before.push(all[i as int]));
        }
        i = i + 1;
    }
    assert(all.skip(n as int) =~= Seq::<Seq<u8>>::empty());
}

/// Accumulating keeps the pending list free of equal paths, keeps the old
/// list as its start, adds only new paths, and leaves it holding a path
/// equal to each old and each new one.
pub proof fn law_accumulate_paths(pending: Seq<Seq<u8>>, new_paths: Seq<Seq<u8>>)
    requires
        keys_of(pending).no_duplicates(),
    ensures
        keys_of(accumulate_spec(pending, new_paths)).no_duplicates(),
        forall|k: Seq<Seq<u8>>| #[trigger] keys_of(accumulate_spec(pending, new_paths)).contains(k)
            <==> (keys_of(pending).contains(k) || keys_of(new_paths).contains(k)),
        forall|p: Seq<u8>| #[trigger] accumulate_spec(pending, new_paths).contains(p) ==> (
        pending.contains(p) || new_paths.contains(p)),
        accumulate_spec(pending, new_paths).len() >= pending.len(),
        accumulate_spec(pending, new_paths).take(pending.len() as int) == pending,
    decreases new_paths.len(),
{
    if new_paths.len() > 0 {
        let x = new_paths[0];
        let rest = new_paths.drop_first();
        let next = if keys_of(pending).contains(path_key(x)) {
            pending
        } else {
            pending.push(x)
        };
        assert(keys_of(pending.push(x)) =~= keys_of(pending).push(path_key(x)));
        assert(keys_of(rest) =~= keys_of(new_paths).drop_first());
        if !keys_of(pending).contains(path_key(x)) {
            assert forall|i: int, j: int|
                0 <= i < keys_of(next).len() && 0 <= j < keys_of(next).len() && i != j implies keys_of(
                next,
            )[i] != keys_of(next)[j] by {
                if i == pending.len() {
                    assert(keys_of(pending)[j] == keys_of(next)[j]);
                } else if j == pending.len() {
                    assert(keys_of(pending)[i] == keys_of(next)[i]);
                }
            }
        }
        law_accumulate_paths(next, rest);
        let out = accumulate_spec(pending, new_paths);
        assert forall|k: Seq<Seq<u8>>| #[trigger] keys_of(out).contains(k) <==> (keys_of(
            pending,
        ).contains(k) || keys_of(new_paths).contains(k)) by {
            if keys_of(new_paths).contains(k) {
                let m = choose|m: int| 0 <= m < keys_of(new_paths).len() && keys_of(new_paths)[m] == k;
                if m > 0 {
                    assert(keys_of(rest)[m - 1] == k);
                } else if !keys_of(pending).contains(k) {
                    assert(keys_of(next)[pending.len() as int] == k);
                }
            }
            if keys_of(pending).contains(k) {
                let m = choose|m: int| 0 <= m < keys_of(pending).len() && keys_of(pending)[m] == k;
                assert(keys_of(next)[m] == k);
            }
            if keys_of(rest).contains(k) {
                let m = choose|m: int| 0 <= m < keys_of(rest).len() && keys_of(rest)[m] == k;
                assert(keys_of(new_paths)[m + 1] == k);
            }
            if keys_of(next).contains(k) && !keys_of(pending).contains(k) {
                let m = choose|m: int| 0 <= m < keys_of(next).len() && keys_of(next)[m] == k;
                assert(m == pending.len());
                assert(keys_of(new_paths)[0] == k);
            }
        }
        assert forall|p: Seq<u8>| #[trigger] out.contains(p) implies (pending.contains(p)
            || new_paths.contains(p)) by {
            if rest.contains(p) {
                let m = choose|m: int| 0 <= m < rest.len() && rest[m] == p;
                assert(new_paths[m + 1] == p);
            }
            if next.contains(p) && !pending.contains(p) {
                let m = choose|m: int| 0 <= m < next.len() && next[m] == p;
                assert(m == pending.len());
                assert(new_paths[0] == p);
            }
        }
        assert(out.take(next.len() as int) == next);
        assert forall|j: int| 0 <= j < pending.len() implies out[j] == next[j] by {
            assert(out.take(next.len() as int)[j] == next[j]);
        }
        assert(out.take(pending.len() as int) =~= next.take(pending.len() as int));
        assert(next.take(pending.len() as int) =~= pending);
    } else {
        assert(pending.take(pending.len() as int) =~= pending);
    }
}

/// What kind of file a changed path is.
#[derive(Debug, Clone, Copy, PartialEq, Eq, Structural)]
pub struct PathClass {
    /// An environment (`.env`) file.
    pub is_env: bool,
    /// A file in the themes directory.
    pub is_theme: bool,
    /// The runtime overrides file or its temporary twin.
    pub is_runtime: bool,
}

/// What to reload after a batch of changes.
#[derive(Debug, Clone, Copy, PartialEq, Eq, Structural)]
pub struct ReloadPlan {
    /// Reload the environment files and tell secret subscribers.
    pub reload_env: bool,
    /// Rescan the themes directory.
    pub reload_themes: bool,
    /// Reload config.toml (with its imports) and runtime.toml.
    pub reload_main: bool,
    /// Reload runtime.toml alone.
    pub reload_runtime_only: bool,
}

/// Whether some changed path is the main config or one of its imports:
/// neither an environment file, a theme, nor the runtime file.
pub open spec fn has_main_change(classes: Seq<PathClass>) -> bool {
    exists|i: int|
        0 <= i < classes.len() && !(#[trigger] classes[i]).is_env && !classes[i].is_theme
            && !classes[i].is_runtime
}

/// The reload plan for a batch of changed paths.
pub open spec fn plan_spec(classes: Seq<PathClass>) -> ReloadPlan {
    let has_env = exists|i: int| 0 <= i < classes.len() && (#[trigger] classes[i]).is_env;
    let has_theme = exists|i: int| 0 <= i < classes.len() && (#[trigger] classes[i]).is_theme;
    let has_runtime = exists|i: int| 0 <= i < classes.len() && (#[trigger] classes[i]).is_runtime;
    ReloadPlan {
        reload_env: has_env,
        reload_themes: has_theme,
        reload_main: has_main_change(classes),
        reload_runtime_only: !has_main_change(classes) && has_runtime,
    }
}

impl ReloadPlan {
    /// Decides what to reload: environment files and themes when they
    /// changed; the main config (which reloads the runtime layer too) when
    /// any other file changed; otherwise the runtime layer alone when it
    /// changed.
    pub fn for_changes(classes: &Vec<PathClass>) -> (r: Self)
        ensures
            r == plan_spec(classes@),
    {
        let mut has_env = false;
        let mut has_theme = false;
        let mut has_runtime = false;
        let mut has_main = false;
        let mut i: usize = 0;
        while i < classes.len()
            invariant
                i <= classes@.len(),
                has_env == exists|j: int| 0 <= j < i && (#[trigger] classes@[j]).is_env,
                has_theme == exists|j: int| 0 <= j < i && (#[trigger] classes@[j]).is_theme,
                has_runtime == exists|j: int| 0 <= j < i && (#[trigger] classes@[j]).is_runtime,
                has_main == exists|j: int|
                    0 <= j < i && !(#[trigger] classes@[j]).is_env && !classes@[j].is_theme
                        && !classes@[j].is_runtime,
            decreases classes@.len() - i,
        {
            let c = classes[i];
            has_env = has_env || c.is_env;
            has_theme = has_theme || c.is_theme;
            has_runtime = has_runtime || c.is_runtime;
            has_main = has_main || (!c.is_env && !c.is_theme && !c.is_runtime);
            i = i + 1;
        }
        ReloadPlan {
            reload_env: has_env,
            reload_themes: has_theme,
            reload_main: has_main,
            reload_runtime_only: !has_main && has_runtime,
        }
    }
}

/// The main config and the runtime layer alone are never both reloaded,
/// and a batch that touches only the runtime file never reloads the main
/// config.
pub proof fn law_reload_plan(classes: Seq<PathClass>)
    ensures
        !(plan_spec(classes).reload_main && plan_spec(classes).reload_runtime_only),
        (forall|i: int| 0 <= i < classes.len() ==> (#[trigger] classes[i]).is_runtime) ==> !plan_spec(
            classes,
        ).reload_main,
{
}

/// Each reload answers its own kind of change, whatever else changed in
/// the same batch: environment files are reloaded exactly when one changed,
/// themes exactly when a theme file changed, the main config exactly when a
/// file of none of those kinds changed, and the runtime layer alone exactly
/// when the runtime file changed and the main config is not reloaded.
pub proof fn law_reload_plan_by_kind(classes: Seq<PathClass>)
    ensures
        plan_spec(classes).reload_env <==> exists|i: int|
            0 <= i < classes.len() && (#[trigger] classes[i]).is_env,
        plan_spec(classes).reload_themes <==> exists|i: int|
            0 <= i < classes.len() && (#[trigger] classes[i]).is_theme,
        plan_spec(classes).reload_main <==> exists|i: int|
            0 <= i < classes.len() && !(#[trigger] classes[i]).is_env && !classes[i].is_theme
                && !classes[i].is_runtime,
        plan_spec(classes).reload_runtime_only <==> (!plan_spec(classes).reload_main && exists|i: int|
            0 <= i < classes.len() && (#[trigger] classes[i]).is_runtime),
{
}

/// What the watcher loop does next.
#[derive(Debug)]
pub enum DebounceAction {
    /// Keep waiting with the current deadline, if any.
    KeepWaiting,
    /// Wait again until a fresh deadline.
    RestartTimer,
    /// Reload for these paths, then wait without a deadline.
    Flush(Vec<Vec<u8>>),
    /// End the loop.
    Stop,
}

/// What the watcher loop observed.
#[derive(Debug)]
pub enum DebounceEvent {
    /// A file event; `reloadable` when it creates, modifies or removes.
    FileEvent { reloadable: bool, paths: Vec<Vec<u8>> },
    /// No event: the deadline passed, or the event channel closed.
    Quiet,
}

/// The debounce state: the paths changed since the last reload, and
/// whether a deadline is set.
#[derive(Debug)]
pub struct Debouncer {
    pending: Vec<Vec<u8>>,
    armed: bool,
}

impl Debouncer {
    /// The paths waiting for a reload.
    pub closed spec fn pending_view(&self) -> Seq<Seq<u8>> {
        paths_view(self.pending@)
    }

    /// Whether a deadline is set.
    pub closed spec fn is_armed(&self) -> bool {
        self.armed
    }

    /// No pending paths and no deadline.
    pub fn new() -> (r: Self)
        ensures
            r.pending_view() == Seq::<Seq<u8>>::empty(),
            !r.is_armed(),
    {
        let r = Debouncer { pending: Vec::new(), armed: false };
        assert(r.pending_view() =~= Seq::<Seq<u8>>::empty());
        r
    }

    /// Handles one observation: reloadable events add their paths and
    /// restart the deadline; other events are ignored; quiet with a
    /// deadline hands out the pending paths for a reload; quiet without a
    /// deadline ends the loop.
    pub fn on_event(&mut self, ev: DebounceEvent) -> (r: DebounceAction)
        ensures
            match ev {
                DebounceEvent::FileEvent { reloadable: true, paths } => {
                    &&& r is RestartTimer
                    &&& final(self).is_armed()
                    &&& final(self).pending_view() == accumulate_spec(
                        old(self).pending_view(),
                        paths_view(paths@),
                    )
                },
                DebounceEvent::FileEvent { reloadable: false, .. } => {
                    &&& r is KeepWaiting
                    &&& final(self).is_armed() == old(self).is_armed()
                    &&& final(self).pending_view() == old(self).pending_view()
                },
                DebounceEvent::Quiet => if old(self).is_armed() {
                    &&& r matches DebounceAction::Flush(p) && paths_view(p@) == old(self).pending_view()
                    &&& !final(self).is_armed()
                    &&& final(self).pending_view() == Seq::<Seq<u8>>::empty()
                } else {
                    &&& r is Stop
                    &&& final(self).is_armed() == old(self).is_armed()
                    &&& final(self).pending_view() == old(self).pending_view()
                },
            },
    {
        match ev {
            DebounceEvent::FileEvent { reloadable, paths } => {
                if reloadable {
                    accumulate_paths(&mut self.pending, paths);
                    self.armed = true;
                    DebounceAction::RestartTimer
                } else {
                    DebounceAction::KeepWaiting
                }
            },
            DebounceEvent::Quiet => {
                if self.armed {
                    let mut paths: Vec<Vec<u8>> = Vec::new();
                    std::mem::swap(&mut paths, &mut self.pending);
                    self.armed = false;
                    assert(paths_view(self.pending@) =~= Seq::<Seq<u8>>::empty());
                    DebounceAction::Flush(paths)
                } else {
                    DebounceAction::Stop
                }
            },
        }
    }
}

} // verus!
