//! The name of the module that holds the flattened library.
use vstd::prelude::*;
use vstd::string::*;
use crate::text::{push_char, push_text};
use crate::token::is_word;

verus! {

/// A TOML value as far as the manifest lookup reads it: a table (its entries
/// in key order, each key once), a string, or any other value.
#[derive(Debug)]
pub enum TomlValue {
    Table(Vec<(String, TomlValue)>),
    Str(String),
    Other,
}

/// No key of `es[i..]` occurs twice in `es`, and every table inside is alike.
pub open spec fn entries_wf(es: Seq<(String, TomlValue)>, i: int) -> bool
    decreases es, es.len() - i,
{
    0 <= i < es.len() ==> {
        &&& forall|j: int| i < j < es.len() ==> (#[trigger] es[j]).0@ != es[i].0@
        &&& match es[i].1 {
            TomlValue::Table(inner) => entries_wf(inner@, 0),
            _ => true,
        }
        &&& entries_wf(es, i + 1)
    }
}

pub open spec fn toml_wf(v: TomlValue) -> bool {
    match v {
        TomlValue::Table(es) => entries_wf(es@, 0),
        _ => true,
    }
}

/// What toml makes of a manifest's text read as a table, if it is valid.
pub uninterp spec fn parsed_toml(content: Seq<char>) -> Option<TomlValue>;

/// toml's value type, carried through the conversion below.
#[verifier::external_type_specification]
#[verifier::external_body]
pub struct ExTomlValue(toml::Value);

/// Parses a manifest's text as a TOML table. Relies on
/// `toml::from_str::<toml::Table>`, whose result depends on the text alone;
/// its tables are maps, so each key occurs once.
#[verifier::external_body]
fn parse_toml(content: &str) -> (r: Option<TomlValue>)
    ensures
        r == parsed_toml(content@),
        match r {
            Some(v) => v is Table && toml_wf(v),
            None => true,
        },
{
    let table = toml::from_str::<toml::Table>(content).ok()?;
    Some(TomlValue::Table(table.into_iter().map(|(k, v)| (k, toml_value_of(v))).collect()))
}

/// Moves one `toml::Value` into a `TomlValue`: a string, a table entry by
/// entry, any other value as `Other`.
#[verifier::external_body]
fn toml_value_of(v: toml::Value) -> TomlValue {
    match v {
        toml::Value::String(s) => TomlValue::Str(s),
        toml::Value::Table(t) => TomlValue::Table(
            t.into_iter().map(|(k, v)| (k, toml_value_of(v))).collect(),
        ),
        _ => TomlValue::Other,
    }
}

/// The value under `key` in `es[i..]`.
pub open spec fn entry_from(es: Seq<(String, TomlValue)>, key: Seq<char>, i: int) -> Option<
    TomlValue,
>
    decreases es.len() - i,
{
    if 0 <= i < es.len() {
        if es[i].0@ == key {
            Some(es[i].1)
        } else {
            entry_from(es, key, i + 1)
        }
    } else {
        None
    }
}

pub open spec fn package_word() -> Seq<char> {
    seq!['p', 'a', 'c', 'k', 'a', 'g', 'e']
}

pub open spec fn name_word() -> Seq<char> {
    seq!['n', 'a', 'm', 'e']
}

/// The string at `package.name` of a manifest.
pub open spec fn package_name_of(doc: TomlValue) -> Option<Seq<char>> {
    match doc {
        TomlValue::Table(top) => match entry_from(top@, package_word(), 0) {
            Some(TomlValue::Table(p)) => match entry_from(p@, name_word(), 0) {
                Some(TomlValue::Str(n)) => Some(n@),
                _ => None,
            },
            _ => None,
        },
        _ => None,
    }
}

fn find_entry(es: &Vec<(String, TomlValue)>, key: &str) -> (r: Option<usize>)
    ensures
        match r {
            Some(i) => i < es@.len() && entry_from(es@, key@, 0) == Some(es@[i as int].1),
            None => entry_from(es@, key@, 0) == None::<TomlValue>,
        },
{
    let mut i: usize = 0;
    while i < es.len()
        invariant
            0 <= i <= es@.len(),
            entry_from(es@, key@, 0) == entry_from(es@, key@, i as int),
        decreases es.len() - i,
    {
        if is_word(&es[i].0, key) {
            return Some(i);
        }
        i += 1;
    }
    None
}

/// The string at `package.name` of a parsed manifest, if it holds one.
pub fn package_name(doc: &TomlValue) -> (r: Option<String>)
    ensures
        opt_view(r) == package_name_of(*doc),
{
    proof {
        reveal_strlit("package");
        reveal_strlit("name");
        assert("package"@ =~= package_word());
        assert("name"@ =~= name_word());
    }
    match doc {
        TomlValue::Table(top) => match find_entry(top, "package") {
            Some(i) => match &top[i].1 {
                TomlValue::Table(p) => match find_entry(p, "name") {
                    Some(j) => match &p[j].1 {
                        TomlValue::Str(n) => Some(n.clone()),
                        _ => None,
                    },
                    None => None,
                },
                _ => None,
            },
            None => None,
        },
        _ => None,
    }
}

pub open spec fn opt_view(o: Option<String>) -> Option<Seq<char>> {
    match o {
        Some(s) => Some(s@),
        None => None,
    }
}

/// The package name when there is one, else the directory's name.
pub open spec fn chosen_name(package: Option<Seq<char>>, dir_name: Option<Seq<char>>) -> Option<
    Seq<char>,
> {
    match package {
        Some(n) => Some(n),
        None => dir_name,
    }
}

/// The crate's name: the package name read from the manifest when there is
/// one, else the name of the crate's directory; `None` when neither is known.
pub fn pick_crate_name(package: Option<String>, dir_name: Option<String>) -> (r: Option<String>)
    ensures
        opt_view(r) == chosen_name(opt_view(package), opt_view(dir_name)),
{
    match package {
        Some(n) => Some(n),
        None => dir_name,
    }
}

/// The crate's name from the text of its manifest (`None` when it could not
/// be read), falling back to the name of its directory.
pub fn fetch_crate_name(manifest: Option<String>, dir_name: Option<String>) -> (r: Option<String>)
    ensures
        opt_view(r) == chosen_name(
            match manifest {
                Some(c) => match parsed_toml(c@) {
                    Some(doc) => package_name_of(doc),
                    None => None,
                },
                None => None,
            },
            opt_view(dir_name),
        ),
{
    let package = match manifest {
        Some(c) => match parse_toml(c.as_str()) {
            Some(doc) => package_name(&doc),
            None => None,
        },
        None => None,
    };
    pick_crate_name(package, dir_name)
}

pub open spec fn normalized(name: Seq<char>) -> Seq<char> {
    name.map_values(|c: char| if c == '-' { '_' } else { c })
}

/// The crate name as it is written in source: each `-` becomes `_`.
pub fn normalize_crate_name(name: &str) -> (r: String)
    ensures
        r@ == normalized(name@),
{
    let n = name.unicode_len();
    let mut out = String::new();
    let mut i: usize = 0;
    while i < n
        invariant
            n == name@.len(),
            0 <= i <= n,
            out@ == normalized(name@.subrange(0, i as int)),
        decreases n - i,
    {
        let c = name.get_char(i);
        push_char(&mut out, if c == '-' { '_' } else { c });
        assert(normalized(name@.subrange(0, i + 1)) =~= normalized(name@.subrange(0, i as int)).push(
            if c == '-' { '_' } else { c },
        ));
        i += 1;
    }
    assert(name@.subrange(0, n as int) =~= name@);
    out
}

pub open spec fn crate_module_text(name: Seq<char>, body: Seq<char>) -> Seq<char> {
    seq!['p', 'u', 'b', ' ', 'm', 'o', 'd', ' '] + normalized(name) + seq![' ', '{', ' '] + body
        + seq![' ', '}', '\n']
}

/// The whole output: `pub mod <name> { <body> }` and a line break, the name
/// normalized.
pub fn crate_module(name: &str, body: &String) -> (r: String)
    ensures
        r@ == crate_module_text(name@, body@),
{
    let mut out = String::new();
    push_char(&mut out, 'p');
    push_char(&mut out, 'u');
    push_char(&mut out, 'b');
    push_char(&mut out, ' ');
    push_char(&mut out, 'm');
    push_char(&mut out, 'o');
    push_char(&mut out, 'd');
    push_char(&mut out, ' ');
    let norm = normalize_crate_name(name);
    push_text(&mut out, &norm);
    push_char(&mut out, ' ');
    push_char(&mut out, '{');
    push_char(&mut out, ' ');
    push_text(&mut out, body);
    push_char(&mut out, ' ');
    push_char(&mut out, '}');
    push_char(&mut out, '\n');
    assert(out@ =~= crate_module_text(name@, body@));
    out
}

} // verus!
