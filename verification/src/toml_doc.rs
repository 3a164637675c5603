//! Parsed TOML documents and the reads the config loader makes of them: the
//! `imports` list of a config file, and the value at a dot-separated path.

use vstd::prelude::*;
use crate::error::InvalidFieldReason;
use crate::text::str_eq;
use vstd::string::*;

verus! {

#[verifier::external_type_specification]
#[verifier::external_body]
pub struct ExTomlValue(toml::Value);

#[verifier::external_type_specification]
#[verifier::external_body]
pub struct ExTomlDeError(toml::de::Error);

/// A TOML value as the config loader reads it. Floats and datetimes are
/// kept as text.
#[derive(Debug)]
pub enum TomlValue {
    /// A string.
    Str(String),
    /// An integer.
    Integer(i64),
    /// A float, in its display form.
    Float(String),
    /// A boolean.
    Boolean(bool),
    /// A datetime, in its display form.
    Datetime(String),
    /// An array.
    Array(Vec<TomlValue>),
    /// A table's entries; a lookup takes the first entry with its key.
    Table(Vec<(String, TomlValue)>),
}

/// The abstract value of a TOML value.
pub enum TomlView {
    /// A string.
    Str(Seq<char>),
    /// An integer.
    Integer(i64),
    /// A float, as text.
    Float(Seq<char>),
    /// A boolean.
    Boolean(bool),
    /// A datetime, as text.
    Datetime(Seq<char>),
    /// An array.
    Array(Seq<TomlView>),
    /// A table.
    Table(Seq<(Seq<char>, TomlView)>),
}

/// The abstract value of a TOML value.
pub open spec fn toml_view(v: TomlValue) -> TomlView
    decreases v,
{
    match v {
        TomlValue::Str(s) => TomlView::Str(s@),
        TomlValue::Integer(i) => TomlView::Integer(i),
        TomlValue::Float(s) => TomlView::Float(s@),
        TomlValue::Boolean(b) => TomlView::Boolean(b),
        TomlValue::Datetime(s) => TomlView::Datetime(s@),
        TomlValue::Array(items) => TomlView::Array(
            Seq::new(
                items.len() as nat,
                |i: int|
                    if 0 <= i < items.len() {
                        proof {
                            broadcast use vstd::std_specs::vec::axiom_vec_index_decreases;
                        }
                        toml_view(items[i])
                    } else {
                        TomlView::Boolean(false)
                    },
            ),
        ),
        TomlValue::Table(entries) => TomlView::Table(
            Seq::new(
                entries.len() as nat,
                |i: int|
                    if 0 <= i < entries.len() {
                        proof {
                            broadcast use vstd::std_specs::vec::axiom_vec_index_decreases;
                        }
                        (entries[i].0@, toml_view(entries[i].1))
                    } else {
                        (Seq::empty(), TomlView::Boolean(false))
                    },
            ),
        ),
    }
}


/// What the TOML parser reads from a document's text: `None` where the text
/// is not valid TOML, else the document's root value, with floats and
/// datetimes as their display text.
pub uninterp spec fn toml_document(content: Seq<char>) -> Option<TomlView>;

/// Carries a parsed `toml::Value` over into a [`TomlValue`], variant for
/// variant; floats and datetimes become their display text.
#[verifier::external_body]
fn toml_value_from(v: toml::Value) -> (r: TomlValue) {
    match v {
        toml::Value::String(s) => TomlValue::Str(s),
        toml::Value::Integer(i) => TomlValue::Integer(i),
        toml::Value::Float(f) => TomlValue::Float(f.to_string()),
        toml::Value::Boolean(b) => TomlValue::Boolean(b),
        toml::Value::Datetime(d) => TomlValue::Datetime(d.to_string()),
        toml::Value::Array(a) => TomlValue::Array(a.into_iter().map(toml_value_from).collect()),
        toml::Value::Table(t) => TomlValue::Table(
            t.into_iter().map(|(k, v)| (k, toml_value_from(v))).collect(),
        ),
    }
}

/// Parses TOML text with `toml::from_str::<toml::Value>`. Trusted: the
/// result is `Ok` exactly when the parser accepts the text, and then its
/// value is the parser's reading of it, `toml_document`.
#[verifier::external_body]
fn parse_toml(content: &str) -> (r: Result<TomlValue, toml::de::Error>)
    ensures
        r is Ok <==> toml_document(content@) is Some,
        r matches Ok(v) ==> toml_document(content@) == Some(toml_view(v)),
{
    toml::from_str::<toml::Value>(content).map(toml_value_from)
}

/// TOML text that the parser rejects.
#[derive(Debug)]
pub struct TomlSyntaxError {
    /// What the parser reported.
    pub source: toml::de::Error,
}

/// Parses the text of a TOML document, such as a config file's contents.
///
/// # Errors
///
/// Returns a [`TomlSyntaxError`] exactly when the text is not valid TOML.
pub fn parse_document(content: &str) -> (r: Result<TomlValue, TomlSyntaxError>)
    ensures
        r is Ok <==> toml_document(content@) is Some,
        r matches Ok(v) ==> toml_document(content@) == Some(toml_view(v)),
{
    match parse_toml(content) {
        Ok(v) => Ok(v),
        Err(source) => Err(TomlSyntaxError { source }),
    }
}

/// The value under the first entry named `key`, from index `i` on.
pub open spec fn lookup_from(entries: Seq<(Seq<char>, TomlView)>, key: Seq<char>, i: int) -> Option<
    TomlView,
>
    decreases entries.len() - i,
{
    if i < 0 || i >= entries.len() {
        None
    } else if entries[i].0 == key {
        Some(entries[i].1)
    } else {
        lookup_from(entries, key, i + 1)
    }
}

/// The value under `key` when `v` is a table that has that key, as
/// `toml::Value::get` with a string index reads it.
pub open spec fn get_key(v: TomlView, key: Seq<char>) -> Option<TomlView> {
    match v {
        TomlView::Table(entries) => lookup_from(entries, key, 0),
        _ => None,
    }
}

/// The strings of an array, in order, with other items left out.
pub open spec fn string_items(items: Seq<TomlView>) -> Seq<Seq<char>>
    decreases items.len(),
{
    if items.len() == 0 {
        Seq::empty()
    } else {
        let rest = string_items(items.drop_last());
        match items.last() {
            TomlView::Str(s) => rest.push(s),
            _ => rest,
        }
    }
}

/// The import paths a config document names: the strings of its top-level
/// `imports` array, or none where there is no such array.
pub open spec fn imports_of(doc: TomlView) -> Seq<Seq<char>> {
    match get_key(doc, "imports"@) {
        Some(TomlView::Array(items)) => string_items(items),
        _ => Seq::empty(),
    }
}

/// The views of a vector of strings.
pub open spec fn strings_view(v: Seq<String>) -> Seq<Seq<char>> {
    Seq::new(v.len(), |i: int| v[i]@)
}

/// Finds the value under `key` in `v`, where `v` is a table.
pub fn get_key_exec<'a>(v: &'a TomlValue, key: &str) -> (r: Option<&'a TomlValue>)
    ensures
        match r {
            Some(w) => get_key(toml_view(*v), key@) == Some(toml_view(*w)),
            None => get_key(toml_view(*v), key@) is None,
        },
{
    match v {
        TomlValue::Table(entries) => {
            let ghost ev = match toml_view(*v) {
                TomlView::Table(e) => e,
                _ => Seq::empty(),
            };
            let mut i: usize = 0;
            while i < entries.len()
                invariant
                    0 <= i <= entries.len(),
                    toml_view(*v) == TomlView::Table(ev),
                    ev.len() == entries.len(),
                    forall|j: int|
                        0 <= j < entries.len() ==> #[trigger] ev[j] == (
                        entries[j].0@,
                        toml_view(entries[j].1),
                    ),
                    lookup_from(ev, key@, 0) == lookup_from(ev, key@, i as int),
                decreases entries.len() - i,
            {
                if str_eq(&entries[i].0, key) {
                    assert(ev[i as int] == (entries[i as int].0@, toml_view(entries[i as int].1)));
                    return Some(&entries[i].1);
                }
                assert(ev[i as int] == (entries[i as int].0@, toml_view(entries[i as int].1)));
                i = i + 1;
            }
            None
        },
        _ => None,
    }
}

/// The string items of an array value, in order; other items are skipped.
fn string_items_exec(items: &Vec<TomlValue>) -> (r: Vec<String>)
    ensures
        strings_view(r@) == string_items(Seq::new(items.len() as nat, |i: int| toml_view(items[i]))),
{
    let ghost iv = Seq::new(items.len() as nat, |i: int| toml_view(items[i]));
    let mut out: Vec<String> = Vec::new();
    let mut i: usize = 0;
    while i < items.len()
        invariant
            0 <= i <= items.len(),
            iv == Seq::new(items.len() as nat, |i: int| toml_view(items[i])),
            strings_view(out@) == string_items(iv.take(i as int)),
        decreases items.len() - i,
    {
        assert(iv.take(i as int + 1).drop_last() =~= iv.take(i as int));
        match &items[i] {
            TomlValue::Str(s) => {
                let ghost before = out@;
                out.push(s.clone());
                assert(strings_view(out@) =~= strings_view(before).push(s@));
            },
            _ => {},
        }
        i = i + 1;
    }
    assert(iv.take(items.len() as int) =~= iv);
    out
}

/// The paths listed under the top-level `imports` key of a parsed config
/// document: each string item of that array, in order. A document without
/// such an array imports nothing.
pub fn import_paths_of(doc: &TomlValue) -> (r: Vec<String>)
    ensures
        strings_view(r@) == imports_of(toml_view(*doc)),
{
    match get_key_exec(doc, "imports") {
        Some(TomlValue::Array(items)) => {
            let r = string_items_exec(items);
            assert(Seq::new(items.len() as nat, |i: int| toml_view(items[i])) =~= match toml_view(
                TomlValue::Array(*items),
            ) {
                TomlView::Array(s) => s,
                _ => Seq::empty(),
            });
            r
        },
        _ => {
            let r: Vec<String> = Vec::new();
            assert(strings_view(r@) =~= Seq::empty());
            r
        },
    }
}

/// Why a config file's imports could not be read.
#[derive(Debug)]
pub enum ImportListError {
    /// The file is not valid TOML.
    TomlParseInline(toml::de::Error),
}

/// Reads the import paths a config file names.
///
/// # Errors
///
/// Returns [`ImportListError::TomlParseInline`] when the content is not
/// valid TOML.
pub fn extract_import_paths(config_content: &str) -> (r: Result<Vec<String>, ImportListError>)
    ensures
        r is Err <==> toml_document(config_content@) is None,
        r matches Ok(paths) ==> strings_view(paths@) == imports_of(
            toml_document(config_content@)->0,
        ),
{
    match parse_toml(config_content) {
        Ok(doc) => Ok(import_paths_of(&doc)),
        Err(e) => Err(ImportListError::TomlParseInline(e)),
    }
}


/// The pieces of `s` between dots, as `str::split('.')` gives them: empty
/// pieces included, and one piece for a string without dots.
pub open spec fn split_dots(s: Seq<char>) -> Seq<Seq<char>>
    decreases s.len(),
{
    if s.len() == 0 {
        seq![Seq::empty()]
    } else {
        let parts = split_dots(s.drop_last());
        if s.last() == '.' {
            parts.push(Seq::empty())
        } else {
            parts.update(parts.len() - 1, parts.last().push(s.last()))
        }
    }
}

/// Splitting yields at least one piece.
pub proof fn lemma_split_dots_nonempty(s: Seq<char>)
    ensures
        split_dots(s).len() >= 1,
    decreases s.len(),
{
    if s.len() > 0 {
        lemma_split_dots_nonempty(s.drop_last());
    }
}

/// Splits a dot-separated path into its pieces.
pub fn split_path(path: &str) -> (r: Vec<String>)
    ensures
        strings_view(r@) == split_dots(path@),
{
    let n = path.unicode_len();
    let mut segs: Vec<String> = Vec::new();
    let mut start: usize = 0;
    let mut i: usize = 0;
    assert(path@.take(0) =~= Seq::<char>::empty());
    assert(strings_view(segs@).push(path@.subrange(0, 0)) =~= seq![Seq::<char>::empty()]);
    while i < n
        invariant
            n == path@.len(),
            start <= i <= n,
            strings_view(segs@).push(path@.subrange(start as int, i as int)) == split_dots(
                path@.take(i as int),
            ),
        decreases n - i,
    {
        let c = path.get_char(i);
        proof {
            assert(path@.take(i as int + 1).drop_last() =~= path@.take(i as int));
            assert(path@.take(i as int + 1).last() == c);
            lemma_split_dots_nonempty(path@.take(i as int));
        }
        if c == '.' {
            let ghost before = segs@;
            let piece = path.substring_char(start, i).to_string();
            segs.push(piece);
            assert(strings_view(segs@) =~= strings_view(before).push(path@.subrange(start as int, i as int)));
            start = i + 1;
            assert(path@.subrange(start as int, i as int + 1) =~= Seq::<char>::empty());
        } else {
            assert(path@.subrange(start as int, i as int + 1) =~= path@.subrange(start as int, i as int).push(c));
            assert(strings_view(segs@).push(path@.subrange(start as int, i as int + 1)) =~= strings_view(segs@).push(path@.subrange(start as int, i as int)).update(
                segs@.len() as int, path@.subrange(start as int, i as int).push(c)));
        }
        i = i + 1;
    }
    let ghost before = segs@;
    let last = path.substring_char(start, n).to_string();
    segs.push(last);
    assert(path@.take(n as int) =~= path@);
    assert(strings_view(segs@) =~= strings_view(before).push(path@.subrange(start as int, n as int)));
    segs
}

/// Where a walk down the pieces of a path ends: the value reached, or the
/// first piece that names no entry of the value before it.
pub open spec fn walk(v: TomlView, segs: Seq<Seq<char>>) -> Result<TomlView, Seq<char>>
    decreases segs.len(),
{
    if segs.len() == 0 {
        Ok(v)
    } else {
        match get_key(v, segs[0]) {
            Some(w) => walk(w, segs.drop_first()),
            None => Err(segs[0]),
        }
    }
}

/// A path that names no value.
#[derive(Debug)]
pub struct PathLookupError {
    /// The piece of the path that was not found.
    pub field: String,
    /// The whole path.
    pub component: String,
    /// Why it failed.
    pub reason: InvalidFieldReason,
}

/// The value at a dot-separated path (e.g. `battery.enabled`) below `root`.
///
/// # Errors
///
/// Returns a [`PathLookupError`] naming the first piece of the path that
/// is not an entry of the table before it.
pub fn value_at_path<'a>(root: &'a TomlValue, path: &str) -> (r: Result<&'a TomlValue, PathLookupError>)
    ensures
        match r {
            Ok(v) => walk(toml_view(*root), split_dots(path@)) == Ok::<TomlView, Seq<char>>(
                toml_view(*v),
            ),
            Err(e) => {
                &&& walk(toml_view(*root), split_dots(path@)) == Err::<TomlView, Seq<char>>(
                    e.field@,
                )
                &&& e.component@ == path@
                &&& e.reason == InvalidFieldReason::NotFound
            },
        },
{
    let segs = split_path(path);
    let ghost sv = strings_view(segs@);
    let mut cur: &TomlValue = root;
    let mut i: usize = 0;
    assert(sv.skip(0) =~= sv);
    while i < segs.len()
        invariant
            0 <= i <= segs.len(),
            sv == strings_view(segs@),
            sv == split_dots(path@),
            walk(toml_view(*root), sv) == walk(toml_view(*cur), sv.skip(i as int)),
        decreases segs.len() - i,
    {
        assert(sv.skip(i as int)[0] == segs@[i as int]@);
        assert(sv.skip(i as int).drop_first() =~= sv.skip(i as int + 1));
        match get_key_exec(cur, &segs[i]) {
            Some(next) => {
                cur = next;
            },
            None => {
                return Err(
                    PathLookupError {
                        field: segs[i].clone(),
                        component: path.to_string(),
                        reason: InvalidFieldReason::NotFound,
                    },
                );
            },
        }
        i = i + 1;
    }
    assert(sv.skip(i as int) =~= Seq::<Seq<char>>::empty());
    Ok(cur)
}

} // verus!
