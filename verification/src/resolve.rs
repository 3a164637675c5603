//! Resolving a monitor's effective bar layout from the configured list.
//!
//! A layout entry may target a specific connector or the `"*"` wildcard, and
//! may `extends` another entry to inherit whole sections. This turns that
//! list and a connector into a single flattened layout.

use vstd::prelude::*;
use crate::bar::{BarLayout, BarLayoutView};
use crate::text::str_eq;

verus! {

/// The abstract values of a list of layouts.
pub open spec fn layouts_view(s: Seq<BarLayout>) -> Seq<BarLayoutView> {
    s.map_values(|l: BarLayout| l@)
}

/// The first index at or after `start` whose layout targets `name`.
pub open spec fn first_with_monitor_from(all: Seq<BarLayoutView>, name: Seq<char>, start: int) -> Option<int>
    decreases all.len() - start,
{
    if start < 0 || start >= all.len() {
        None
    } else if all[start].monitor == name {
        Some(start)
    } else {
        first_with_monitor_from(all, name, start + 1)
    }
}

/// The first index whose layout targets `name`.
pub open spec fn first_with_monitor(all: Seq<BarLayoutView>, name: Seq<char>) -> Option<int> {
    first_with_monitor_from(all, name, 0)
}

/// How many layouts target a monitor name not yet visited.
pub open spec fn unvisited_count(all: Seq<BarLayoutView>, visited: Set<Seq<char>>) -> nat
    decreases all.len(),
{
    if all.len() == 0 {
        0
    } else {
        unvisited_count(all.drop_last(), visited) + if visited.contains(all.last().monitor) {
            0nat
        } else {
            1nat
        }
    }
}

/// A found index targets the name and lies at or after `start`.
pub proof fn lemma_first_with_monitor_from(all: Seq<BarLayoutView>, name: Seq<char>, start: int)
    ensures
        first_with_monitor_from(all, name, start) matches Some(i) ==> start <= i < all.len()
            && all[i].monitor == name,
        (0 <= start && first_with_monitor_from(all, name, start) is None) ==> forall|j: int|
            start <= j < all.len() ==> all[j].monitor != name,
    decreases all.len() - start,
{
    if start < 0 || start >= all.len() {
    } else if all[start].monitor == name {
    } else {
        lemma_first_with_monitor_from(all, name, start + 1);
    }
}

/// Visiting one more name never increases the count, and decreases it when
/// the name was unvisited and some layout targets it.
pub proof fn lemma_unvisited_insert(all: Seq<BarLayoutView>, visited: Set<Seq<char>>, e: Seq<char>)
    ensures
        unvisited_count(all, visited.insert(e)) <= unvisited_count(all, visited),
        (!visited.contains(e) && exists|i: int| 0 <= i < all.len() && all[i].monitor == e)
            ==> unvisited_count(all, visited.insert(e)) < unvisited_count(all, visited),
    decreases all.len(),
{
    if all.len() > 0 {
        lemma_unvisited_insert(all.drop_last(), visited, e);
        if !visited.contains(e) && exists|i: int| 0 <= i < all.len() && all[i].monitor == e {
            let i = choose|i: int| 0 <= i < all.len() && all[i].monitor == e;
            if i < all.len() - 1 {
                assert(all.drop_last()[i].monitor == e);
            }
        }
    }
}

/// `layout` with each empty section taken from `parent`.
pub open spec fn inherit_sections(layout: BarLayoutView, parent: BarLayoutView) -> BarLayoutView {
    BarLayoutView {
        left: if layout.left.len() == 0 {
            parent.left
        } else {
            layout.left
        },
        center: if layout.center.len() == 0 {
            parent.center
        } else {
            layout.center
        },
        right: if layout.right.len() == 0 {
            parent.right
        } else {
            layout.right
        },
        ..layout
    }
}

/// `layout` with its `extends` chain resolved: when it extends a layout
/// that is found and not yet visited, its empty sections come from that
/// layout's own resolution. A circular `extends` stops at the first repeated
/// name.
pub open spec fn merge_spec(layout: BarLayoutView, all: Seq<BarLayoutView>, visited: Set<Seq<char>>) -> BarLayoutView
    decreases unvisited_count(all, visited),
{
    match layout.extends {
        None => layout,
        Some(e) => if visited.contains(e) {
            layout
        } else {
            match first_with_monitor(all, e) {
                None => layout,
                Some(i) => {
                    proof {
                        lemma_first_with_monitor_from(all, e, 0);
                        lemma_unvisited_insert(all, visited, e);
                    }
                    inherit_sections(layout, merge_spec(all[i], all, visited.insert(e)))
                },
            }
        },
    }
}

/// The visited names after resolving `layout`'s `extends` chain: every
/// name the chain reaches is added, up to and including the first name that
/// is already visited or that no layout targets.
pub open spec fn merge_visited(layout: BarLayoutView, all: Seq<BarLayoutView>, visited: Set<Seq<char>>) -> Set<Seq<char>>
    decreases unvisited_count(all, visited),
{
    match layout.extends {
        None => visited,
        Some(e) => if visited.contains(e) {
            visited
        } else {
            match first_with_monitor(all, e) {
                None => visited.insert(e),
                Some(i) => {
                    proof {
                        lemma_first_with_monitor_from(all, e, 0);
                        lemma_unvisited_insert(all, visited, e);
                    }
                    merge_visited(all[i], all, visited.insert(e))
                },
            }
        },
    }
}

/// The layout for `connector`: the first exact match, else the first `"*"`
/// wildcard, with its `extends` chain resolved.
pub open spec fn find_layout_spec(all: Seq<BarLayoutView>, connector: Seq<char>) -> Option<BarLayoutView> {
    match first_with_monitor(all, connector) {
        Some(i) => Some(merge_spec(all[i], all, Set::empty())),
        None => match first_with_monitor(all, "*"@) {
            Some(i) => Some(merge_spec(all[i], all, Set::empty())),
            None => None,
        },
    }
}

/// The set of names held in a list.
pub open spec fn name_set(v: Seq<String>) -> Set<Seq<char>> {
    Set::new(|n: Seq<char>| exists|j: int| 0 <= j < v.len() && v[j]@ == n)
}

fn find_by_monitor(all: &[BarLayout], name: &str) -> (r: Option<usize>)
    ensures
        match r {
            Some(i) => first_with_monitor(layouts_view(all@), name@) == Some(i as int),
            None => first_with_monitor(layouts_view(all@), name@) is None,
        },
{
    let ghost lv = layouts_view(all@);
    let mut i: usize = 0;
    while i < all.len()
        invariant
            i <= all.len(),
            lv == layouts_view(all@),
            first_with_monitor(lv, name@) == first_with_monitor_from(lv, name@, i as int),
        decreases all.len() - i,
    {
        assert(lv[i as int].monitor == all@[i as int].monitor@);
        if str_eq(all[i].monitor.as_str(), name) {
            return Some(i);
        }
        i = i + 1;
    }
    None
}

fn visited_contains(visited: &Vec<String>, name: &String) -> (r: bool)
    ensures
        r == name_set(visited@).contains(name@),
{
    let mut i: usize = 0;
    while i < visited.len()
        invariant
            i <= visited.len(),
            forall|j: int| 0 <= j < i ==> visited@[j]@ != name@,
        decreases visited.len() - i,
    {
        if str_eq(visited[i].as_str(), name.as_str()) {
            return true;
        }
        i = i + 1;
    }
    false
}

fn merge_parent(layout: &BarLayout, all_layouts: &[BarLayout], visited: &mut Vec<String>) -> (r: BarLayout)
    ensures
        r@ == merge_spec(layout@, layouts_view(all_layouts@), name_set(old(visited)@)),
        name_set(final(visited)@) == merge_visited(
            layout@,
            layouts_view(all_layouts@),
            name_set(old(visited)@),
        ),
    decreases unvisited_count(layouts_view(all_layouts@), name_set(old(visited)@)),
{
    let ghost all = layouts_view(all_layouts@);
    let ghost vis0 = name_set(visited@);
    let mut resolved = layout.duplicate();
    let extends_name = match &layout.extends {
        None => {
            return resolved;
        },
        Some(e) => e,
    };
    if visited_contains(visited, extends_name) {
        return resolved;
    }
    visited.push(extends_name.clone());
    proof {
        assert(name_set(visited@) =~= vis0.insert(extends_name@)) by {
            assert forall|n: Seq<char>| name_set(visited@).contains(n) implies vis0.insert(
                extends_name@,
            ).contains(n) by {
                let j = choose|j: int| 0 <= j < visited@.len() && visited@[j]@ == n;
                if j < visited@.len() - 1 {
                    assert(vis0.contains(n));
                }
            }
            assert forall|n: Seq<char>| vis0.insert(extends_name@).contains(n) implies name_set(
                visited@,
            ).contains(n) by {
                if n == extends_name@ {
                    assert(visited@[visited@.len() - 1]@ == n);
                } else {
                    let j = choose|j: int| 0 <= j < old(visited)@.len() && old(visited)@[j]@ == n;
                    assert(visited@[j]@ == n);
                }
            }
        }
    }
    let idx = find_by_monitor(all_layouts, extends_name.as_str());
    let i = match idx {
        None => {
            return resolved;
        },
        Some(i) => i,
    };
    proof {
        lemma_first_with_monitor_from(all, extends_name@, 0);
        lemma_unvisited_insert(all, vis0, extends_name@);
        assert(all[i as int] == all_layouts@[i as int]@);
    }
    let parent = merge_parent(&all_layouts[i], all_layouts, visited);
    let BarLayout { left, center, right, .. } = parent;
    if resolved.left.len() == 0 {
        resolved.left = left;
    }
    if resolved.center.len() == 0 {
        resolved.center = center;
    }
    if resolved.right.len() == 0 {
        resolved.right = right;
    }
    resolved
}

/// Finds the layout matching `connector` (exact match first, then `"*"`
/// wildcard) and resolves any `extends` chain into a single flattened
/// layout.
pub fn find_layout(layouts: &[BarLayout], connector: &str) -> (r: Option<BarLayout>)
    ensures
        match r {
            Some(l) => find_layout_spec(layouts_view(layouts@), connector@) == Some(l@),
            None => find_layout_spec(layouts_view(layouts@), connector@) is None,
        },
{
    let mut visited: Vec<String> = Vec::new();
    proof {
        assert(name_set(visited@) =~= Set::<Seq<char>>::empty());
    }
    if let Some(i) = find_by_monitor(layouts, connector) {
        proof {
            lemma_first_with_monitor_from(layouts_view(layouts@), connector@, 0);
        }
        return Some(merge_parent(&layouts[i], layouts, &mut visited));
    }
    if let Some(i) = find_by_monitor(layouts, "*") {
        proof {
            lemma_first_with_monitor_from(layouts_view(layouts@), "*"@, 0);
        }
        return Some(merge_parent(&layouts[i], layouts, &mut visited));
    }
    None
}

/// Resolution keeps the layout's own monitor, visibility and `extends`, and
/// every section the layout itself fills.
pub proof fn law_merge_keeps_own_settings(layout: BarLayoutView, all: Seq<BarLayoutView>, visited: Set<Seq<char>>)
    ensures
        merge_spec(layout, all, visited).monitor == layout.monitor,
        merge_spec(layout, all, visited).show == layout.show,
        merge_spec(layout, all, visited).extends == layout.extends,
        layout.left.len() > 0 ==> merge_spec(layout, all, visited).left == layout.left,
        layout.center.len() > 0 ==> merge_spec(layout, all, visited).center == layout.center,
        layout.right.len() > 0 ==> merge_spec(layout, all, visited).right == layout.right,
        layout.extends is None ==> merge_spec(layout, all, visited) == layout,
{
}

/// Resolution never invents modules: each section of the resolved layout is
/// the layout's own section or the same section of some configured layout.
pub proof fn law_merge_sections_come_from_layouts(
    layout: BarLayoutView,
    all: Seq<BarLayoutView>,
    visited: Set<Seq<char>>,
)
    ensures
        merge_spec(layout, all, visited).left == layout.left || exists|j: int|
            0 <= j < all.len() && merge_spec(layout, all, visited).left == #[trigger] all[j].left,
        merge_spec(layout, all, visited).center == layout.center || exists|j: int|
            0 <= j < all.len() && merge_spec(layout, all, visited).center == #[trigger] all[j].center,
        merge_spec(layout, all, visited).right == layout.right || exists|j: int|
            0 <= j < all.len() && merge_spec(layout, all, visited).right == #[trigger] all[j].right,
    decreases unvisited_count(all, visited),
{
    match layout.extends {
        None => {},
        Some(e) => {
            if !visited.contains(e) {
                match first_with_monitor(all, e) {
                    None => {},
                    Some(i) => {
                        lemma_first_with_monitor_from(all, e, 0);
                        lemma_unvisited_insert(all, visited, e);
                        law_merge_sections_come_from_layouts(all[i], all, visited.insert(e));
                    },
                }
            }
        },
    }
}

/// An exact match for the connector wins over the wildcard; without one the
/// first `"*"` layout is used; and there is no layout exactly when neither
/// exists. The chosen layout keeps its own monitor and visibility.
pub proof fn law_find_layout_choice(all: Seq<BarLayoutView>, connector: Seq<char>)
    ensures
        (exists|i: int| 0 <= i < all.len() && all[i].monitor == connector) ==> (
        find_layout_spec(all, connector) matches Some(l) && l.monitor == connector),
        (!(exists|i: int| 0 <= i < all.len() && all[i].monitor == connector) && exists|i: int|
            0 <= i < all.len() && all[i].monitor == "*"@) ==> (find_layout_spec(all, connector) matches Some(
            l,
        ) && l.monitor == "*"@),
        find_layout_spec(all, connector) is None <==> (!(exists|i: int|
            0 <= i < all.len() && all[i].monitor == connector) && !(exists|i: int|
            0 <= i < all.len() && all[i].monitor == "*"@)),
        find_layout_spec(all, connector) matches Some(l) ==> exists|i: int|
            0 <= i < all.len() && l.monitor == all[i].monitor && l.show == all[i].show,
{
    lemma_first_with_monitor_from(all, connector, 0);
    lemma_first_with_monitor_from(all, "*"@, 0);
    match first_with_monitor(all, connector) {
        Some(i) => {
            law_merge_keeps_own_settings(all[i], all, Set::empty());
        },
        None => {
            match first_with_monitor(all, "*"@) {
                Some(i) => {
                    law_merge_keeps_own_settings(all[i], all, Set::empty());
                },
                None => {},
            }
        },
    }
}

/// Resolving a layout only ever adds to the visited names, and it records
/// the name the layout extends.
pub proof fn law_merge_visited_grows(layout: BarLayoutView, all: Seq<BarLayoutView>, visited: Set<Seq<char>>)
    ensures
        visited.subset_of(merge_visited(layout, all, visited)),
        layout.extends matches Some(e) ==> merge_visited(layout, all, visited).contains(e),
    decreases unvisited_count(all, visited),
{
    match layout.extends {
        None => {},
        Some(e) => if !visited.contains(e) {
            match first_with_monitor(all, e) {
                None => {},
                Some(i) => {
                    lemma_first_with_monitor_from(all, e, 0);
                    lemma_unvisited_insert(all, visited, e);
                    law_merge_visited_grows(all[i], all, visited.insert(e));
                },
            }
        },
    }
}

/// Inheritance goes through the whole chain: when a layout extends a
/// layout that is found and not yet visited, each of its empty sections is
/// that section of the parent's own resolution (so a grandparent's section
/// reaches it through an empty parent), and each section it fills itself
/// stays its own. A layout that extends nothing, extends a visited name, or
/// extends a name no layout targets resolves to itself.
pub proof fn law_merge_inherits_resolved_parent(
    layout: BarLayoutView,
    all: Seq<BarLayoutView>,
    visited: Set<Seq<char>>,
)
    ensures
        match layout.extends {
            Some(e) => match first_with_monitor(all, e) {
                Some(i) => !visited.contains(e) ==> {
                    let parent = merge_spec(all[i], all, visited.insert(e));
                    let r = merge_spec(layout, all, visited);
                    &&& r.left == (if layout.left.len() == 0 {
                        parent.left
                    } else {
                        layout.left
                    })
                    &&& r.center == (if layout.center.len() == 0 {
                        parent.center
                    } else {
                        layout.center
                    })
                    &&& r.right == (if layout.right.len() == 0 {
                        parent.right
                    } else {
                        layout.right
                    })
                    &&& r.monitor == layout.monitor
                    &&& r.show == layout.show
                    &&& r.extends == layout.extends
                },
                None => merge_spec(layout, all, visited) == layout,
            },
            None => merge_spec(layout, all, visited) == layout,
        },
        (layout.extends matches Some(e) && visited.contains(e)) ==> merge_spec(layout, all, visited)
            == layout,
{
}

} // verus!
