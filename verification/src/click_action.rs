//! Click action types for bar module interaction and the string form in
//! which they are written in the config.

use vstd::prelude::*;
use crate::property::ConfigValue;
use crate::text::{str_eq, strip_prefix};

verus! {

/// Action to perform on a bar module click or scroll event.
///
/// Written in the config as a string:
/// - `""` -> `None`
/// - `"dropdown"` -> `InlineDropdown`
/// - `"dropdown:audio"` -> `Dropdown("audio")`
/// - `"pavucontrol"` -> `Shell("pavucontrol")`
#[derive(Debug, PartialEq, Eq)]
pub enum ClickAction {
    /// Open a named dropdown panel.
    Dropdown(String),
    /// Open the module's own inline dropdown (custom modules only).
    InlineDropdown,
    /// Execute a shell command.
    Shell(String),
    /// No action configured.
    NoAction,
}

/// The abstract value of a click action.
pub enum ClickActionView {
    /// Open the named dropdown.
    Dropdown(Seq<char>),
    /// Open the inline dropdown.
    InlineDropdown,
    /// Run the command.
    Shell(Seq<char>),
    /// Do nothing.
    NoAction,
}

impl View for ClickAction {
    type V = ClickActionView;

    open spec fn view(&self) -> ClickActionView {
        match *self {
            ClickAction::Dropdown(n) => ClickActionView::Dropdown(n@),
            ClickAction::InlineDropdown => ClickActionView::InlineDropdown,
            ClickAction::Shell(c) => ClickActionView::Shell(c@),
            ClickAction::NoAction => ClickActionView::NoAction,
        }
    }
}

/// The prefix that selects a named dropdown.
pub open spec fn dropdown_prefix() -> Seq<char> {
    "dropdown:"@
}

/// The click action that a config string denotes.
pub open spec fn parse_click(s: Seq<char>) -> ClickActionView {
    if s.len() == 0 {
        ClickActionView::NoAction
    } else if s == "dropdown"@ {
        ClickActionView::InlineDropdown
    } else if dropdown_prefix().is_prefix_of(s) {
        ClickActionView::Dropdown(s.skip(dropdown_prefix().len() as int))
    } else {
        ClickActionView::Shell(s)
    }
}

/// The config string of a click action.
pub open spec fn click_string(a: ClickActionView) -> Seq<char> {
    match a {
        ClickActionView::Dropdown(n) => dropdown_prefix() + n,
        ClickActionView::InlineDropdown => "dropdown"@,
        ClickActionView::Shell(c) => c,
        ClickActionView::NoAction => Seq::empty(),
    }
}

/// Whether a click action is written in a form that reads back as itself:
/// a shell command must be non-empty and must not look like a dropdown.
pub open spec fn canonical_click(a: ClickActionView) -> bool {
    match a {
        ClickActionView::Shell(c) => c.len() > 0 && c != "dropdown"@ && !dropdown_prefix().is_prefix_of(c),
        _ => true,
    }
}

impl ClickAction {
    /// Parse a click action from a config string value.
    pub fn parse_str(s: &str) -> (r: Self)
        ensures
            r@ == parse_click(s@),
    {
        if s.unicode_len() == 0 {
            return ClickAction::NoAction;
        }
        if str_eq(s, "dropdown") {
            return ClickAction::InlineDropdown;
        }
        match strip_prefix(s, "dropdown:") {
            Some(name) => ClickAction::Dropdown(name.to_owned()),
            None => ClickAction::Shell(s.to_owned()),
        }
    }

    /// The string under which this action is written in the config.
    pub fn to_config_string(&self) -> (r: String)
        ensures
            r@ == click_string(self@),
    {
        match self {
            ClickAction::Dropdown(name) => String::from_str("dropdown:").concat(name.as_str()),
            ClickAction::InlineDropdown => String::from_str("dropdown"),
            ClickAction::Shell(cmd) => cmd.clone(),
            ClickAction::NoAction => String::new(),
        }
    }

    /// The dropdown this action opens, if it opens a named one.
    pub fn dropdown_name(&self) -> (r: Option<&str>)
        ensures
            match self@ {
                ClickActionView::Dropdown(n) => r matches Some(x) && x@ == n,
                _ => r is None,
            },
    {
        match self {
            ClickAction::Dropdown(name) => Some(name.as_str()),
            _ => None,
        }
    }
}

impl Default for ClickAction {
    fn default() -> (r: Self)
        ensures
            r@ == ClickActionView::NoAction,
    {
        ClickAction::NoAction
    }
}

impl ConfigValue for ClickAction {
    fn duplicate(&self) -> (r: Self) {
        match self {
            ClickAction::Dropdown(n) => ClickAction::Dropdown(n.clone()),
            ClickAction::InlineDropdown => ClickAction::InlineDropdown,
            ClickAction::Shell(c) => ClickAction::Shell(c.clone()),
            ClickAction::NoAction => ClickAction::NoAction,
        }
    }

    fn same_value(&self, other: &Self) -> (r: bool) {
        match (self, other) {
            (ClickAction::Dropdown(a), ClickAction::Dropdown(b)) => str_eq(a.as_str(), b.as_str()),
            (ClickAction::InlineDropdown, ClickAction::InlineDropdown) => true,
            (ClickAction::Shell(a), ClickAction::Shell(b)) => str_eq(a.as_str(), b.as_str()),
            (ClickAction::NoAction, ClickAction::NoAction) => true,
            _ => false,
        }
    }
}

/// Writing a parsed string gives back the string: every config string is
/// read and written without loss.
pub proof fn law_click_parse_then_print(s: Seq<char>)
    ensures
        click_string(parse_click(s)) == s,
{
    if s.len() > 0 && s != "dropdown"@ && dropdown_prefix().is_prefix_of(s) {
        assert(dropdown_prefix() + s.skip(dropdown_prefix().len() as int) =~= s);
    }
}

/// Reading a written action gives back the action, for every action written
/// in its canonical form.
pub proof fn law_click_print_then_parse(a: ClickActionView)
    requires
        canonical_click(a),
    ensures
        parse_click(click_string(a)) == a,
{
    reveal_strlit("dropdown:");
    reveal_strlit("dropdown");
    assert(dropdown_prefix().len() == 9);
    assert("dropdown"@.len() == 8);
    match a {
        ClickActionView::Dropdown(n) => {
            let s = dropdown_prefix() + n;
            assert(s.subrange(0, 9) =~= dropdown_prefix());
            assert(s.skip(9) =~= n);
        },
        ClickActionView::InlineDropdown => {
            assert(!dropdown_prefix().is_prefix_of("dropdown"@));
        },
        _ => {},
    }
}

/// The distinct dropdown names that a list of click actions opens, in
/// first-seen order, accumulated onto `seen`.
pub open spec fn dropdown_names_spec(actions: Seq<ClickActionView>, seen: Seq<Seq<char>>) -> Seq<Seq<char>>
    decreases actions.len(),
{
    if actions.len() == 0 {
        seen
    } else {
        let next = match actions[0] {
            ClickActionView::Dropdown(n) => if seen.contains(n) {
                seen
            } else {
                seen.push(n)
            },
            _ => seen,
        };
        dropdown_names_spec(actions.drop_first(), next)
    }
}

/// A value that can report which dropdowns its click actions currently open.
pub trait DropdownSources {
    /// The distinct dropdown names this value's click actions currently
    /// open, in first-seen order.
    fn dropdown_names(&self) -> Vec<String>;
}

/// The abstract values of a list of click actions.
pub open spec fn actions_view(v: Seq<ClickAction>) -> Seq<ClickActionView> {
    v.map_values(|a: ClickAction| a@)
}

/// The abstract values of a list of names.
pub open spec fn names_view(v: Seq<String>) -> Seq<Seq<char>> {
    v.map_values(|s: String| s@)
}

fn names_contain(names: &Vec<String>, name: &str) -> (r: bool)
    ensures
        r == names_view(names@).contains(name@),
{
    let mut i: usize = 0;
    while i < names.len()
        invariant
            i <= names.len(),
            forall|j: int| 0 <= j < i ==> names@[j]@ != name@,
        decreases names.len() - i,
    {
        if str_eq(names[i].as_str(), name) {
            assert(names_view(names@)[i as int] == name@);
            return true;
        }
        i = i + 1;
    }
    proof {
        if names_view(names@).contains(name@) {
            let j = choose|j: int| 0 <= j < names_view(names@).len() && names_view(names@)[j] == name@;
            assert(names@[j]@ == name@);
        }
    }
    false
}

/// The distinct dropdown names that `actions` open, in first-seen order.
pub fn collect_dropdown_names(actions: &Vec<ClickAction>) -> (r: Vec<String>)
    ensures
        names_view(r@) == dropdown_names_spec(actions_view(actions@), Seq::empty()),
{
    let mut names: Vec<String> = Vec::new();
    let mut i: usize = 0;
    proof {
        assert(actions_view(actions@).skip(0) =~= actions_view(actions@));
        assert(names_view(names@) =~= Seq::<Seq<char>>::empty());
    }
    while i < actions.len()
        invariant
            i <= actions.len(),
            dropdown_names_spec(actions_view(actions@), Seq::empty()) == dropdown_names_spec(
                actions_view(actions@).skip(i as int),
                names_view(names@),
            ),
        decreases actions.len() - i,
    {
        let ghost rest = actions_view(actions@).skip(i as int);
        assert(rest[0] == actions@[i as int]@);
        assert(rest.drop_first() =~= actions_view(actions@).skip(i + 1));
        if let Some(name) = actions[i].dropdown_name() {
            if !names_contain(&names, name) {
                let ghost before = names_view(names@);
                names.push(name.to_owned());
                assert(names_view(names@) =~= before.push(name@));
            }
        }
        i = i + 1;
    }
    proof {
        assert(actions_view(actions@).skip(i as int).len() == 0);
    }
    names
}

impl DropdownSources for Vec<ClickAction> {
    fn dropdown_names(&self) -> (r: Vec<String>)
        ensures
            names_view(r@) == dropdown_names_spec(actions_view(self@), Seq::empty()),
    {
        collect_dropdown_names(self)
    }
}

/// The collected names are distinct, each is opened by some action, and
/// every dropdown that some action opens is among them.
pub proof fn law_dropdown_names(actions: Seq<ClickActionView>, seen: Seq<Seq<char>>)
    requires
        seen.no_duplicates(),
    ensures
        dropdown_names_spec(actions, seen).no_duplicates(),
        forall|n: Seq<char>| #[trigger] dropdown_names_spec(actions, seen).contains(n) ==> seen.contains(n)
            || exists|i: int| 0 <= i < actions.len() && actions[i] == ClickActionView::Dropdown(n),
        forall|i: int| 0 <= i < actions.len() ==> (#[trigger] actions[i] matches ClickActionView::Dropdown(n)
            ==> dropdown_names_spec(actions, seen).contains(n)),
        forall|n: Seq<char>| seen.contains(n) ==> #[trigger] dropdown_names_spec(actions, seen).contains(n),
    decreases actions.len(),
{
    if actions.len() > 0 {
        let next = match actions[0] {
            ClickActionView::Dropdown(n) => if seen.contains(n) {
                seen
            } else {
                seen.push(n)
            },
            _ => seen,
        };
        law_dropdown_names(actions.drop_first(), next);
        let out = dropdown_names_spec(actions, seen);
        assert(out == dropdown_names_spec(actions.drop_first(), next));
        assert forall|n: Seq<char>| #[trigger] out.contains(n) implies seen.contains(n) || exists|i: int|
            0 <= i < actions.len() && actions[i] == ClickActionView::Dropdown(n) by {
            if !next.contains(n) {
                let k = choose|k: int|
                    0 <= k < actions.drop_first().len() && actions.drop_first()[k]
                        == ClickActionView::Dropdown(n);
                assert(actions[k + 1] == ClickActionView::Dropdown(n));
            } else if !seen.contains(n) {
                assert(actions[0] == ClickActionView::Dropdown(n));
            }
        }
        assert forall|i: int| 0 <= i < actions.len() implies (#[trigger] actions[i] matches ClickActionView::Dropdown(n)
            ==> out.contains(n)) by {
            if i > 0 {
                assert(actions[i] == actions.drop_first()[i - 1]);
            } else if let ClickActionView::Dropdown(n) = actions[0] {
                if !seen.contains(n) {
                    assert(seen.push(n)[seen.len() as int] == n);
                }
                assert(next.contains(n));
            }
        }
        assert forall|n: Seq<char>| seen.contains(n) implies #[trigger] out.contains(n) by {
            let j = choose|j: int| 0 <= j < seen.len() && seen[j] == n;
            assert(next[j] == n);
            assert(next.contains(n));
        }
    }
}

/// The click-action grammar: the empty string is no action, `dropdown` opens
/// the module's own dropdown, `dropdown:<name>` opens the dropdown `<name>`
/// for every name, and any other text is a shell command run as written.
pub proof fn law_click_grammar(name: Seq<char>, command: Seq<char>)
    ensures
        parse_click(Seq::empty()) == ClickActionView::NoAction,
        parse_click("dropdown"@) == ClickActionView::InlineDropdown,
        parse_click("dropdown:"@ + name) == ClickActionView::Dropdown(name),
        (command.len() > 0 && command != "dropdown"@ && !"dropdown:"@.is_prefix_of(command))
            ==> parse_click(command) == ClickActionView::Shell(command),
        click_string(ClickActionView::Dropdown(name)) == "dropdown:"@ + name,
        click_string(ClickActionView::Shell(command)) == command,
        click_string(ClickActionView::NoAction) == Seq::<char>::empty(),
        click_string(ClickActionView::InlineDropdown) == "dropdown"@,
{
    reveal_strlit("dropdown:");
    reveal_strlit("dropdown");
    let s = "dropdown:"@ + name;
    assert(s.len() >= 9);
    assert(s != "dropdown"@);
    assert(s.subrange(0, 9) =~= "dropdown:"@);
    assert(s.skip(9) =~= name);
}

} // verus!
