//! The value tree of a TOML document, and reading typed fields out of it.

use vstd::prelude::*;

verus! {

/// A TOML value as this library reads it. Strings, arrays and tables are
/// kept; integers, floats, booleans and datetimes become `Other`, since no
/// field of a configuration holds one.
#[derive(Debug)]
pub enum TomlNode {
    Str(String),
    Array(Vec<TomlNode>),
    Table(Vec<(String, TomlNode)>),
    Other,
}

/// What toml makes of a document's text: its value tree, or the text of
/// the diagnostic it reports.
pub uninterp spec fn toml_reading(text: Seq<char>) -> Result<TomlNode, Seq<char>>;

/// Relies on toml's `FromStr` for `toml::Value` (which is `toml::from_str`)
/// to parse a document, and on the `Display` of `toml::de::Error` for the
/// diagnostic; the tree is copied into `TomlNode` variant for variant.
#[verifier::external_body]
pub(crate) fn read_toml(text: &str) -> (r: Result<TomlNode, String>)
    ensures
        r is Ok ==> toml_reading(text@) == Ok::<TomlNode, Seq<char>>(r->Ok_0),
        r is Err ==> toml_reading(text@) == Err::<TomlNode, Seq<char>>(r->Err_0@),
{
    match text.parse::<toml::Value>() {
        Ok(v) => Ok(node_of(v)),
        Err(e) => Err(e.to_string()),
    }
}

/// toml's value tree, carried opaquely from the parser to `node_of`.
#[verifier::external_type_specification]
#[verifier::external_body]
pub struct ExTomlValue(toml::Value);

/// Copies a `toml::Value` into a `TomlNode`, variant for variant; tables
/// come out in the order in which toml's map yields their keys.
#[verifier::external_body]
fn node_of(v: toml::Value) -> TomlNode {
    match v {
        toml::Value::String(s) => TomlNode::Str(s),
        toml::Value::Array(a) => TomlNode::Array(a.into_iter().map(node_of).collect()),
        toml::Value::Table(t) => TomlNode::Table(t.into_iter().map(|(k, x)| (k, node_of(x))).collect()),
        _ => TomlNode::Other,
    }
}

/// The node stored under `key` in a table's entries (the first, should a
/// key repeat).
pub open spec fn entry_of(entries: Seq<(String, TomlNode)>, key: Seq<char>) -> Option<TomlNode>
    decreases entries.len(),
{
    if entries.len() == 0 {
        None
    } else if entries[0].0@ == key {
        Some(entries[0].1)
    } else {
        entry_of(entries.drop_first(), key)
    }
}

/// The text of a string node.
pub open spec fn str_of(n: TomlNode) -> Option<Seq<char>> {
    match n {
        TomlNode::Str(s) => Some(s@),
        _ => None,
    }
}

/// The texts of an array node whose items are all strings.
pub open spec fn strs_of(n: TomlNode) -> Option<Seq<Seq<char>>> {
    match n {
        TomlNode::Array(items) => if forall|i: int| 0 <= i < items@.len() ==> (#[trigger] items@[i]) is Str {
            Some(Seq::new(items@.len(), |i: int| items@[i]->Str_0@))
        } else {
            None
        },
        _ => None,
    }
}

/// The key/text pairs of a table node whose values are all strings.
pub open spec fn str_pairs_of(n: TomlNode) -> Option<Seq<(Seq<char>, Seq<char>)>> {
    match n {
        TomlNode::Table(es) => if forall|i: int| 0 <= i < es@.len() ==> (#[trigger] es@[i]).1 is Str {
            Some(Seq::new(es@.len(), |i: int| (es@[i].0@, es@[i].1->Str_0@)))
        } else {
            None
        },
        _ => None,
    }
}

/// A required string field: `None` when it is missing or not a string.
pub open spec fn required_str(entries: Seq<(String, TomlNode)>, key: Seq<char>) -> Option<Seq<char>> {
    match entry_of(entries, key) {
        Some(n) => str_of(n),
        None => None,
    }
}

/// An optional string field: `None` when it is present and not a string,
/// `Some(None)` when it is missing.
pub open spec fn optional_str(entries: Seq<(String, TomlNode)>, key: Seq<char>) -> Option<Option<Seq<char>>> {
    match entry_of(entries, key) {
        Some(n) => match str_of(n) {
            Some(s) => Some(Some(s)),
            None => None,
        },
        None => Some(None),
    }
}

/// An optional field holding an array of strings.
pub open spec fn optional_strs(entries: Seq<(String, TomlNode)>, key: Seq<char>) -> Option<Option<Seq<Seq<char>>>> {
    match entry_of(entries, key) {
        Some(n) => match strs_of(n) {
            Some(s) => Some(Some(s)),
            None => None,
        },
        None => Some(None),
    }
}

/// Finds the node stored under `key` among a table's entries.
pub fn find_entry<'a>(entries: &'a Vec<(String, TomlNode)>, key: &String) -> (r: Option<&'a TomlNode>)
    ensures
        r is None <==> entry_of(entries@, key@) is None,
        r is Some ==> entry_of(entries@, key@) == Some(*r->Some_0),
{
    let mut i: usize = 0;
    assert(entries@.subrange(0, entries@.len() as int) =~= entries@);
    while i < entries.len()
        invariant
            i <= entries@.len(),
            entry_of(entries@, key@) == entry_of(entries@.subrange(i as int, entries@.len() as int), key@),
        decreases entries@.len() - i,
    {
        let ghost rest = entries@.subrange(i as int, entries@.len() as int);
        assert(rest.drop_first() =~= entries@.subrange(i + 1, entries@.len() as int));
        if entries[i].0.eq(key) {
            return Some(&entries[i].1);
        }
        i = i + 1;
    }
    assert(entries@.subrange(i as int, entries@.len() as int).len() == 0);
    None
}

/// The texts of optional strings.
pub open spec fn opt_text(o: Option<String>) -> Option<Seq<char>> {
    match o {
        Some(s) => Some(s@),
        None => None,
    }
}

/// The texts of a sequence of string pairs.
pub open spec fn pairs_text(v: Seq<(String, String)>) -> Seq<(Seq<char>, Seq<char>)> {
    Seq::new(v.len(), |i: int| (v[i].0@, v[i].1@))
}

/// The texts of an optional list of strings.
pub open spec fn opt_strs_text(o: Option<Vec<String>>) -> Option<Seq<Seq<char>>> {
    match o {
        Some(v) => Some(v.deep_view()),
        None => None,
    }
}

/// Reads a string node.
pub fn read_str(n: &TomlNode) -> (r: Option<String>)
    ensures
        opt_text(r) == str_of(*n),
{
    match n {
        TomlNode::Str(s) => Some(s.clone()),
        _ => None,
    }
}

/// Reads an array node whose items are all strings.
pub fn read_strs(n: &TomlNode) -> (r: Option<Vec<String>>)
    ensures
        opt_strs_text(r) == strs_of(*n),
{
    match n {
        TomlNode::Array(items) => {
            let mut out: Vec<String> = Vec::new();
            let mut i: usize = 0;
            while i < items.len()
                invariant
                    *n == TomlNode::Array(*items),
                    i <= items@.len(),
                    out@.len() == i,
                    forall|j: int| 0 <= j < i ==> (#[trigger] items@[j]) is Str && out@[j]@ == items@[j]->Str_0@,
                decreases items@.len() - i,
            {
                match &items[i] {
                    TomlNode::Str(s) => out.push(s.clone()),
                    _ => {
                        assert(!(items@[i as int] is Str));
                        return None;
                    },
                }
                i = i + 1;
            }
            assert(out.deep_view() =~= Seq::new(items@.len(), |j: int| items@[j]->Str_0@));
            Some(out)
        },
        _ => None,
    }
}

/// Reads a table node whose values are all strings, keeping the order of
/// its entries.
pub fn read_str_pairs(n: &TomlNode) -> (r: Option<Vec<(String, String)>>)
    ensures
        r is None <==> str_pairs_of(*n) is None,
        r is Some ==> str_pairs_of(*n) == Some(pairs_text(r->Some_0@)),
{
    match n {
        TomlNode::Table(es) => {
            let mut out: Vec<(String, String)> = Vec::new();
            let mut i: usize = 0;
            while i < es.len()
                invariant
                    *n == TomlNode::Table(*es),
                    i <= es@.len(),
                    out@.len() == i,
                    forall|j: int| 0 <= j < i ==> (#[trigger] es@[j]).1 is Str && out@[j].0@ == es@[j].0@
                        && out@[j].1@ == es@[j].1->Str_0@,
                decreases es@.len() - i,
            {
                match &es[i].1 {
                    TomlNode::Str(s) => out.push((es[i].0.clone(), s.clone())),
                    _ => {
                        assert(!(es@[i as int].1 is Str));
                        return None;
                    },
                }
                i = i + 1;
            }
            assert(pairs_text(out@) =~= Seq::new(es@.len(), |j: int| (es@[j].0@, es@[j].1->Str_0@)));
            Some(out)
        },
        _ => None,
    }
}

/// Reads a required string field.
pub fn read_required_str(entries: &Vec<(String, TomlNode)>, key: &str) -> (r: Option<String>)
    ensures
        opt_text(r) == required_str(entries@, key@),
{
    match find_entry(entries, &String::from_str(key)) {
        Some(n) => read_str(n),
        None => None,
    }
}

/// Reads an optional string field: `None` when it holds something else.
pub fn read_optional_str(entries: &Vec<(String, TomlNode)>, key: &str) -> (r: Option<Option<String>>)
    ensures
        r is None <==> optional_str(entries@, key@) is None,
        r is Some ==> optional_str(entries@, key@) == Some(opt_text(r->Some_0)),
{
    match find_entry(entries, &String::from_str(key)) {
        Some(n) => match read_str(n) {
            Some(s) => Some(Some(s)),
            None => None,
        },
        None => Some(None),
    }
}

/// Reads an optional field holding an array of strings.
pub fn read_optional_strs(entries: &Vec<(String, TomlNode)>, key: &str) -> (r: Option<Option<Vec<String>>>)
    ensures
        r is None <==> optional_strs(entries@, key@) is None,
        r is Some ==> optional_strs(entries@, key@) == Some(opt_strs_text(r->Some_0)),
{
    match find_entry(entries, &String::from_str(key)) {
        Some(n) => match read_strs(n) {
            Some(v) => Some(Some(v)),
            None => None,
        },
        None => Some(None),
    }
}

} // verus!
