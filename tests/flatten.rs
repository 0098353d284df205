use modflatten::flatten::{expand, ExpandError, Expansion, Options, Probe, SourceTree};
use modflatten::parse::probe_text;

fn segments(p: &[String]) -> String {
    p.join("/")
}

/// Runs `expand` on the library root `lib.rs`, answering each probe from `files`.
fn run(files: &[(&str, &str)], opts: Options) -> (Expansion, Vec<String>) {
    let mut tree = SourceTree { entries: Vec::new() };
    let mut asked = Vec::new();
    loop {
        let r = expand(&tree, &Vec::new(), &"lib".to_string(), true, opts);
        match r {
            Expansion::Needs(path) => {
                let key = segments(&path);
                assert!(!asked.contains(&key), "asked twice for {key}");
                asked.push(key.clone());
                let probe = match files.iter().find(|(p, _)| *p == key) {
                    None => Probe::Absent,
                    Some((_, text)) => probe_text(text),
                };
                tree.entries.push((path, probe));
            }
            other => return (other, asked),
        }
    }
}

fn text(e: Expansion) -> String {
    match e {
        Expansion::Text(t) => t,
        other => panic!("expected text, got {other:?}"),
    }
}

fn squeeze(s: &str) -> String {
    s.chars().filter(|c| !c.is_whitespace()).collect()
}

const PLAIN: Options = Options { remove_test: false, remove_doc: false };
const ALL: Options = Options { remove_test: true, remove_doc: true };

#[test]
fn nested_files_are_inlined() {
    let files = [("lib.rs", "mod a;"), ("a.rs", "mod b;"), ("a/b.rs", "fn f() {}")];
    for opts in [PLAIN, ALL] {
        let (r, _) = run(&files, opts);
        assert_eq!(squeeze(&text(r)), "moda{modb{fnf(){}}}");
    }
}

#[test]
fn directory_module_children_resolve_below_it() {
    let files = [("lib.rs", "mod a;"), ("a/mod.rs", "mod b;"), ("a/b.rs", "struct S;")];
    let (r, asked) = run(&files, PLAIN);
    assert_eq!(squeeze(&text(r)), "moda{modb{structS;}}");
    assert!(asked.contains(&"a/b.rs".to_string()));
    assert!(!asked.iter().any(|p| p.starts_with("a/mod/")));
}

#[test]
fn test_module_is_skipped_without_looking_for_its_file() {
    let files = [("lib.rs", "#[cfg(test)] mod tests; fn f() {}")];
    let opts = Options { remove_test: true, remove_doc: false };
    let (r, asked) = run(&files, opts);
    assert_eq!(squeeze(&text(r)), "fnf(){}");
    assert_eq!(asked, vec!["lib.rs".to_string()]);
}

#[test]
fn test_module_is_required_when_kept() {
    let files = [("lib.rs", "#[cfg(test)] mod tests;")];
    let (r, _) = run(&files, PLAIN);
    match r {
        Expansion::Failed(ExpandError::ModuleNotFound { module, first, second }) => {
            assert_eq!(module, "tests");
            assert_eq!(segments(&first), "tests.rs");
            assert_eq!(segments(&second), "tests/mod.rs");
        }
        other => panic!("unexpected {other:?}"),
    }
}

#[test]
fn other_cfg_gates_do_not_skip() {
    let files = [("lib.rs", "#[cfg(feature = \"x\")] mod a;"), ("a.rs", "fn g() {}")];
    let (r, _) = run(&files, ALL);
    let t = text(r);
    assert!(t.contains("cfg"));
    assert_eq!(squeeze(&t), "#[cfg(feature=\"x\")]moda{fng(){}}");
}

const DOCUMENTED: &str = "/// S\nstruct S {\n    /// field\n    x: u8,\n}\n/// E\nenum E {\n    /// variant\n    V,\n}\n/// f\nfn f() {\n    let c = |#[doc = \"p\"] y: u8| y;\n}\n";

#[test]
fn doc_attributes_are_removed_everywhere() {
    let files = [("lib.rs", DOCUMENTED)];
    let (r, _) = run(&files, Options { remove_test: false, remove_doc: true });
    let t = text(r);
    assert!(!t.contains("doc"), "{t}");
    assert_eq!(squeeze(&t), "structS{x:u8,}enumE{V,}fnf(){letc=|y:u8|y;}");
}

#[test]
fn doc_attributes_are_kept_without_removal() {
    let files = [("lib.rs", DOCUMENTED)];
    let (r, _) = run(&files, PLAIN);
    let t = text(r);
    for d in ["\" S\"", "\" field\"", "\" E\"", "\" variant\"", "\" f\"", "\"p\""] {
        assert!(t.contains(d), "{d} missing in {t}");
    }
    assert_eq!(t.matches("doc").count(), 6);
}

#[test]
fn file_and_module_doc_attributes_follow_the_option() {
    let files = [("lib.rs", "//! crate docs\n/// module docs\nmod a;"), ("a.rs", "//! inner\nfn f() {}")];
    let (kept, _) = run(&files, PLAIN);
    let kept = text(kept);
    assert!(kept.contains("crate docs") && kept.contains("module docs") && kept.contains("inner"));
    let (removed, _) = run(&files, Options { remove_test: false, remove_doc: true });
    assert_eq!(squeeze(&text(removed)), "moda{fnf(){}}");
}

#[test]
fn plain_items_are_the_same_under_every_option() {
    let files = [("lib.rs", "use std::fmt;\nconst N: usize = 3;\nfn f(x: &mut Vec<u8>) -> Option<u8> { x.pop() }\n")];
    let mut outs = Vec::new();
    for remove_test in [false, true] {
        for remove_doc in [false, true] {
            let (r, _) = run(&files, Options { remove_test, remove_doc });
            outs.push(text(r));
        }
    }
    assert!(outs.iter().all(|o| *o == outs[0]));
    assert_eq!(squeeze(&outs[0]), "usestd::fmt;constN:usize=3;fnf(x:&mutVec<u8>)->Option<u8>{x.pop()}");
    assert!(outs[0].starts_with("use std :: fmt ;\n"));
}

#[test]
fn missing_module_names_both_paths() {
    let files = [("lib.rs", "mod a;"), ("a.rs", "mod missing;")];
    let (r, _) = run(&files, PLAIN);
    match r {
        Expansion::Failed(ExpandError::ModuleNotFound { module, first, second }) => {
            assert_eq!(module, "missing");
            assert_eq!(segments(&first), "a/missing.rs");
            assert_eq!(segments(&second), "a/missing/mod.rs");
        }
        other => panic!("unexpected {other:?}"),
    }
}

#[test]
fn both_layouts_are_ambiguous() {
    let files = [("lib.rs", "mod a;"), ("a.rs", ""), ("a/mod.rs", "")];
    let (r, _) = run(&files, PLAIN);
    assert!(matches!(r, Expansion::Failed(ExpandError::AmbiguousModule { .. })));
}

#[test]
fn visibility_is_kept() {
    let files = [("lib.rs", "pub mod a; mod b;"), ("a.rs", ""), ("b.rs", "")];
    let (r, _) = run(&files, PLAIN);
    let t = text(r);
    assert!(t.starts_with("pub mod a {"), "{t}");
    assert!(t.contains("\nmod b {"), "{t}");
    assert!(!t.contains("pub mod b"));
}

#[test]
fn restricted_visibility_fails() {
    let files = [("lib.rs", "pub(crate) mod a;"), ("a.rs", "")];
    let (r, asked) = run(&files, PLAIN);
    match r {
        Expansion::Failed(ExpandError::UnsupportedVisibility { module, file }) => {
            assert_eq!(module, "a");
            assert_eq!(segments(&file), "lib.rs");
        }
        other => panic!("unexpected {other:?}"),
    }
    assert_eq!(asked, vec!["lib.rs".to_string()]);
}

#[test]
fn inline_module_keeps_its_block_and_context() {
    let files = [
        ("lib.rs", "pub mod outer {\n    #![allow(dead_code)]\n    mod c;\n}"),
        ("c.rs", "fn h() {}"),
    ];
    let (r, _) = run(&files, PLAIN);
    let t = text(r);
    assert_eq!(squeeze(&t), "pubmodouter{#![allow(dead_code)]modc{fnh(){}}}");
    assert!(t.starts_with("pub mod outer {\n#"));
}

#[test]
fn unparsable_file_is_reported() {
    let files = [("lib.rs", "mod a;"), ("a.rs", "fn (")];
    let (r, _) = run(&files, PLAIN);
    match r {
        Expansion::Failed(ExpandError::Parse { path, message }) => {
            assert_eq!(segments(&path), "a.rs");
            assert!(!message.is_empty());
        }
        other => panic!("unexpected {other:?}"),
    }
}

#[test]
fn missing_root_is_reported() {
    let (r, _) = run(&[], PLAIN);
    match r {
        Expansion::Failed(ExpandError::Missing { path }) => assert_eq!(segments(&path), "lib.rs"),
        other => panic!("unexpected {other:?}"),
    }
}

#[test]
fn unreadable_file_is_reported() {
    let tree = SourceTree {
        entries: vec![(vec!["lib.rs".to_string()], Probe::Unreadable("denied".to_string()))],
    };
    let r = expand(&tree, &Vec::new(), &"lib".to_string(), true, PLAIN);
    match r {
        Expansion::Failed(ExpandError::Unreadable { message, .. }) => assert_eq!(message, "denied"),
        other => panic!("unexpected {other:?}"),
    }
}

#[test]
fn non_root_entry_looks_below_its_own_name() {
    let tree = SourceTree {
        entries: vec![(
            vec!["src".to_string(), "a.rs".to_string()],
            probe_text("mod b;"),
        )],
    };
    let r = expand(&tree, &vec!["src".to_string()], &"a".to_string(), false, PLAIN);
    match r {
        Expansion::Needs(p) => assert_eq!(segments(&p), "src/a/b.rs"),
        other => panic!("unexpected {other:?}"),
    }
}

#[test]
fn shebang_is_kept() {
    let files = [("lib.rs", "#!/usr/bin/env run\nfn main() {}")];
    let (r, _) = run(&files, PLAIN);
    assert!(text(r).starts_with("#!/usr/bin/env run\n"));
}

#[test]
fn restricted_visibility_names_the_declaring_file() {
    let files = [("lib.rs", "mod a;"), ("a.rs", "mod inner { pub(super) mod b; }")];
    let (r, _) = run(&files, PLAIN);
    match r {
        Expansion::Failed(ExpandError::UnsupportedVisibility { module, file }) => {
            assert_eq!(module, "b");
            assert_eq!(segments(&file), "a.rs");
        }
        other => panic!("unexpected {other:?}"),
    }
}
