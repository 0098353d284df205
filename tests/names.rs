use modflatten::item::remove_doc_attrs;
use modflatten::manifest::{
    crate_module, fetch_crate_name, normalize_crate_name, package_name, pick_crate_name, TomlValue,
};
use modflatten::flatten::Probe;
use modflatten::parse::probe_text;
use modflatten::source::SourceUnit;
use modflatten::source::SourceItem;
use modflatten::token::{strip_doc_tokens, tokens_to_string};

fn parsed(text: &str) -> SourceUnit {
    match probe_text(text) {
        Probe::Parsed(u) => u,
        other => panic!("not parsed: {other:?}"),
    }
}

#[test]
fn dashes_become_underscores() {
    assert_eq!(normalize_crate_name("my-cool-crate"), "my_cool_crate");
    assert_eq!(normalize_crate_name("plain"), "plain");
    assert_eq!(normalize_crate_name(""), "");
}

#[test]
fn crate_name_from_manifest() {
    let manifest = "[package]\nname = \"foo-bar\"\nversion = \"0.1.0\"\n".to_string();
    assert_eq!(fetch_crate_name(Some(manifest), Some("dir".to_string())), Some("foo-bar".to_string()));
}

#[test]
fn crate_name_falls_back_to_directory() {
    assert_eq!(fetch_crate_name(Some("not [ toml".to_string()), Some("dir".to_string())), Some("dir".to_string()));
    assert_eq!(fetch_crate_name(Some("[workspace]\n".to_string()), Some("dir".to_string())), Some("dir".to_string()));
    assert_eq!(fetch_crate_name(None, Some("dir".to_string())), Some("dir".to_string()));
    assert_eq!(fetch_crate_name(None, None), None);
}

#[test]
fn picked_name_prefers_the_package() {
    assert_eq!(pick_crate_name(Some("p".to_string()), Some("d".to_string())), Some("p".to_string()));
    assert_eq!(pick_crate_name(None, Some("d".to_string())), Some("d".to_string()));
}

#[test]
fn crate_module_wraps_the_body() {
    assert_eq!(crate_module("a-b", &"fn f() {}".to_string()), "pub mod a_b { fn f() {} }\n");
}

#[test]
fn parse_keeps_module_structure() {
    let u = parsed("#![allow(x)]\nmod a;\npub mod b { fn f() {} }\nfn g() {}");
    assert_eq!(u.attrs.len(), 1);
    assert_eq!(u.items.len(), 3);
    match &u.items[1] {
        SourceItem::Module(m) => {
            assert_eq!(m.name, "b");
            assert_eq!(m.body.as_ref().map(|b| b.len()), Some(1));
        }
        other => panic!("unexpected {other:?}"),
    }
    assert!(matches!(probe_text("fn ("), Probe::Unparsable(_)));
}

#[test]
fn doc_tokens_are_stripped_at_depth() {
    let u = parsed("/// top\nimpl S {\n    /// m\n    fn m(&self) { match 1 { #[doc = \"a\"] _ => {} } }\n}");
    match &u.items[0] {
        SourceItem::Other(ts) => {
            let before = tokens_to_string(ts);
            assert!(before.contains("doc"));
            let after = tokens_to_string(&strip_doc_tokens(ts));
            assert!(!after.contains("doc"), "{after}");
            assert!(after.starts_with("impl S {"));
        }
        other => panic!("unexpected {other:?}"),
    }
}

#[test]
fn tokens_render_with_joint_punctuation() {
    let u = parsed("fn f() -> u8 { a::b }");
    match &u.items[0] {
        SourceItem::Other(ts) => assert_eq!(tokens_to_string(ts), "fn f () -> u8 { a :: b }"),
        other => panic!("unexpected {other:?}"),
    }
}

#[test]
fn remove_doc_attrs_on_a_module() {
    let u = parsed("/// outer\n#[allow(x)]\nmod a { //! inner\n /// f\n fn f() {} }");
    let item = u.items.into_iter().next().unwrap();
    match remove_doc_attrs(item) {
        SourceItem::Module(m) => {
            assert_eq!(m.attrs.len(), 1);
            assert_eq!(tokens_to_string(&m.attrs[0]), "# [allow (x)]");
            match &m.body.as_ref().unwrap()[0] {
                SourceItem::Other(ts) => assert_eq!(tokens_to_string(ts), "fn f () { }"),
                other => panic!("unexpected {other:?}"),
            }
        }
        other => panic!("unexpected {other:?}"),
    }
}

fn other_tokens(item: &SourceItem) -> &Vec<modflatten::token::Token> {
    match item {
        SourceItem::Other(ts) => ts,
        other => panic!("unexpected {other:?}"),
    }
}

#[test]
fn empty_braces_print_as_proc_macro2_does() {
    let u = parsed("#[a {}]\nfn f() {}\nfn g() { x }");
    assert_eq!(tokens_to_string(other_tokens(&u.items[0])), "# [a { }] fn f () { }");
    assert_eq!(tokens_to_string(other_tokens(&u.items[1])), "fn g () { x }");
}

#[test]
fn macro_definitions_are_left_alone() {
    let src = "/// m\nmacro_rules! m { (#[doc = $d:expr] $i:item) => { #[doc = $d] $i }; }";
    let u = parsed(src);
    let ts = other_tokens(&u.items[0]);
    let after = tokens_to_string(&strip_doc_tokens(ts));
    assert_eq!(after, "macro_rules ! m { (# [doc = $ d : expr] $ i : item) => { # [doc = $ d] $ i } ; }");
}

#[test]
fn macro_calls_are_left_alone_but_negation_is_not_a_macro() {
    let src = "fn f() { m!(#[doc = \"a\"] x); if !ok { #[doc = \"b\"] let y = 1; } }";
    let u = parsed(src);
    let after = tokens_to_string(&strip_doc_tokens(other_tokens(&u.items[0])));
    assert!(after.contains("# [doc = \"a\"]"), "{after}");
    assert!(!after.contains("\"b\""), "{after}");
}

#[test]
fn attribute_arguments_are_left_alone() {
    let u = parsed("#[cfg_attr(x, doc = \"a\")]\nfn f() {}");
    let ts = other_tokens(&u.items[0]);
    assert_eq!(tokens_to_string(&strip_doc_tokens(ts)), tokens_to_string(ts));
}

#[test]
fn remove_doc_attrs_keeps_an_undocumented_module() {
    let u = parsed("#[allow(x)]\nmod a { #[inline] fn f() {} m!(#[doc = \"k\"] y); }");
    let item = u.items.into_iter().next().unwrap();
    match remove_doc_attrs(item) {
        SourceItem::Module(m) => {
            assert_eq!(m.name, "a");
            assert_eq!(m.attrs.len(), 1);
            assert_eq!(tokens_to_string(&m.attrs[0]), "# [allow (x)]");
            let body = m.body.unwrap();
            assert_eq!(tokens_to_string(other_tokens(&body[0])), "# [inline] fn f () { }");
            assert_eq!(tokens_to_string(other_tokens(&body[1])), "m ! (# [doc = \"k\"] y) ;");
        }
        other => panic!("unexpected {other:?}"),
    }
}

fn table(entries: Vec<(&str, TomlValue)>) -> TomlValue {
    TomlValue::Table(entries.into_iter().map(|(k, v)| (k.to_string(), v)).collect())
}

#[test]
fn package_name_reads_package_then_name() {
    let doc = table(vec![
        ("dependencies", table(vec![("name", TomlValue::Str("no".to_string()))])),
        ("package", table(vec![("version", TomlValue::Other), ("name", TomlValue::Str("yes".to_string()))])),
    ]);
    assert_eq!(package_name(&doc), Some("yes".to_string()));
}

#[test]
fn package_name_needs_a_string_in_a_table() {
    assert_eq!(package_name(&table(vec![("name", TomlValue::Str("top".to_string()))])), None);
    assert_eq!(package_name(&table(vec![("package", TomlValue::Str("p".to_string()))])), None);
    assert_eq!(package_name(&table(vec![("package", table(vec![("name", TomlValue::Other)]))])), None);
    assert_eq!(package_name(&TomlValue::Str("package".to_string())), None);
}

#[test]
fn crate_name_ignores_a_non_string_package_name() {
    let manifest = "[package]\nname = 3\n".to_string();
    assert_eq!(fetch_crate_name(Some(manifest), Some("dir".to_string())), Some("dir".to_string()));
}

#[test]
fn stripping_twice_is_stripping_once() {
    let u = parsed("/// a\nfn f() { #[doc = \"b\"] let x = 1; m!(#[doc = \"c\"]); }");
    let once = strip_doc_tokens(other_tokens(&u.items[0]));
    let twice = strip_doc_tokens(&once);
    assert_eq!(tokens_to_string(&once), tokens_to_string(&twice));
    assert_eq!(tokens_to_string(&once), "fn f () { let x = 1 ; m ! (# [doc = \"c\"]) ; }");
}
