//! What holds of every flattening, proved over the specifications of
//! `expand`, `strip_doc_tokens` and `write_tokens`.
use vstd::prelude::*;
use crate::flatten::{
    Fault, Options, Outcome, PathView, Probe, SourceTree, depth_from, dir_candidate,
    file_candidate, find_from, item_outcome, module_open, path_view, probe_of, room, unit_outcome,
    wrap,
};
use crate::item::{
    attr_views, docs_removed, items_doc_free, items_docs_removed, items_same,
    kept_attrs, no_doc_attrs,
};
use crate::source::{ModuleDecl, SourceItem, Visibility, attr_is_doc, has_test_gate};
use crate::token::Token;
use crate::token::{
    TokenView, doc_attr_at, doc_free, doc_free_from, is_doc_group, is_macro_path_end,
    is_opaque_group, is_punct,
    stripped, stripped_from, tokens_text, tokens_view,
};

verus! {

broadcast use vstd::seq::group_seq_axioms;

/// `t` from `a` on is doc-free when it equals `u` from `b` on, `u` is doc-free
/// there, and no group of `t` is outside a macro body where the matching group
/// of `u` is inside one.
proof fn lemma_doc_free_transfer(t: Seq<TokenView>, a: int, u: Seq<TokenView>, b: int)
    requires
        0 <= a <= t.len(),
        0 <= b <= u.len(),
        t.len() - a == u.len() - b,
        forall|q: int| a <= q < t.len() ==> #[trigger] t[q] == u[q - a + b],
        forall|q: int|
            a <= q < t.len() && t[q] is Group && !is_opaque_group(t, q) ==> !is_opaque_group(
                u,
                q - a + b,
            ),
        doc_free_from(u, b),
    ensures
        doc_free_from(t, a),
    decreases t.len() - a,
{
    if a < t.len() {
        assert(t[a] == u[b]);
        if a + 1 < t.len() {
            assert(t[a + 1] == u[b + 1]);
        }
        if a + 2 < t.len() {
            assert(t[a + 2] == u[b + 2]);
        }
        assert(doc_attr_at(t, a) == doc_attr_at(u, b));
        lemma_doc_free_transfer(t, a + 1, u, b + 1);
    }
}

/// Stripping `s` from `i` on, read after the untouched tokens `s[..i]`,
/// leaves no documentation attribute at any depth outside macro bodies and
/// attribute arguments.
proof fn lemma_stripped_doc_free_after(s: Seq<TokenView>, i: int)
    requires
        0 <= i <= s.len(),
    ensures
        doc_free_from(s.subrange(0, i) + stripped_from(s, i), i),
    decreases s, s.len() - i,
{
    let pre = s.subrange(0, i);
    let out = stripped_from(s, i);
    let t = pre + out;
    if i < s.len() {
        lemma_stripped_doc_free_after(s, i + 1);
        let rest = stripped_from(s, i + 1);
        let u = s.subrange(0, i + 1) + rest;
        assert(u[i] == s[i]);
        assert forall|k: int| 0 <= k < i implies #[trigger] t[k] == s[k] && u[k] == s[k] by {}
        if is_punct(s[i], '#') && rest.len() >= 1 && is_doc_group(rest[0]) {
            assert(doc_free_from(u, i + 2));
            assert forall|q: int| i <= q < t.len() implies #[trigger] t[q] == u[q - i + (i
                + 2)] by {
                assert(t[q] == rest[q - i + 1]);
            }
            lemma_doc_free_transfer(t, i, u, i + 2);
        } else if is_punct(s[i], '#') && rest.len() >= 2 && is_punct(rest[0], '!')
            && is_doc_group(rest[1]) {
            assert(doc_free_from(u, i + 2));
            assert(doc_free_from(u, i + 3));
            assert forall|q: int| i <= q < t.len() implies #[trigger] t[q] == u[q - i + (i
                + 3)] by {
                assert(t[q] == rest[q - i + 2]);
            }
            lemma_doc_free_transfer(t, i, u, i + 3);
        } else {
            let head = out[0];
            assert(t[i] == head);
            assert(is_macro_path_end(head) == is_macro_path_end(s[i]));
            assert(head is Ident == s[i] is Ident);
            assert(head is Group == s[i] is Group);
            assert forall|c: char| is_punct(head, c) == #[trigger] is_punct(s[i], c) by {}
            assert forall|q: int| i + 1 <= q < t.len() implies #[trigger] t[q] == u[q - (i + 1)
                + (i + 1)] by {
                assert(t[q] == rest[q - i - 1]);
            }
            lemma_doc_free_transfer(t, i + 1, u, i + 1);
            if rest.len() >= 1 {
                assert(t[i + 1] == rest[0]);
            }
            if rest.len() >= 2 {
                assert(t[i + 2] == rest[1]);
            }
            assert(!doc_attr_at(t, i));
            match s[i] {
                TokenView::Group(d, body) => {
                    assert(is_opaque_group(t, i) == is_opaque_group(s, i));
                    if !is_opaque_group(s, i) {
                        lemma_stripped_doc_free_after(body, 0);
                        assert(body.subrange(0, 0) + stripped_from(body, 0) =~= stripped_from(
                            body,
                            0,
                        ));
                    }
                },
                _ => {},
            }
        }
    }
}

/// After removal, no documentation attribute is left at any depth outside
/// macro bodies and attribute arguments.
pub proof fn lemma_stripped_doc_free(s: Seq<TokenView>)
    ensures
        doc_free(stripped(s)),
{
    lemma_stripped_doc_free_after(s, 0);
    assert(s.subrange(0, 0) + stripped_from(s, 0) =~= stripped(s));
}

/// Tokens without documentation attributes are left as they are.
pub proof fn lemma_doc_free_unchanged(s: Seq<TokenView>, i: int)
    requires
        0 <= i <= s.len(),
        doc_free_from(s, i),
    ensures
        stripped_from(s, i) == s.subrange(i, s.len() as int),
    decreases s, s.len() - i,
{
    if i < s.len() {
        lemma_doc_free_unchanged(s, i + 1);
        let rest = stripped_from(s, i + 1);
        assert(rest == s.subrange(i + 1, s.len() as int));
        match s[i] {
            TokenView::Group(d, body) => {
                if !is_opaque_group(s, i) {
                    lemma_doc_free_unchanged(body, 0);
                    assert(body.subrange(0, body.len() as int) =~= body);
                }
            },
            _ => {},
        }
        if is_punct(s[i], '#') && rest.len() >= 1 {
            assert(rest[0] == s[i + 1]);
        }
        if is_punct(s[i], '#') && rest.len() >= 2 {
            assert(rest[1] == s[i + 2]);
        }
        assert(stripped_from(s, i) =~= s.subrange(i, s.len() as int));
    }
}

/// An item that holds no module and no documentation attribute is written
/// as its tokens' text, whatever the options and whatever the files around.
pub proof fn law_passthrough(
    tree: SourceTree,
    items: Seq<SourceItem>,
    i: int,
    file: PathView,
    dir: PathView,
    opts: Options,
)
    requires
        0 <= i < items.len(),
        items[i] is Other,
        doc_free(tokens_view(items[i]->Other_0@)),
    ensures
        item_outcome(tree, items, i, file, dir, opts) == Outcome::Text(
            tokens_text(tokens_view(items[i]->Other_0@)) + seq!['\n'],
        ),
{
    let v = tokens_view(items[i]->Other_0@);
    lemma_doc_free_unchanged(v, 0);
    assert(v.subrange(0, v.len() as int) =~= v);
}

/// With removal on, an item is written as its stripped tokens, which hold no
/// documentation attribute at any depth outside macro bodies and attribute
/// arguments; with it off, the item is written as it came.
pub proof fn law_doc_removal(
    tree: SourceTree,
    items: Seq<SourceItem>,
    i: int,
    file: PathView,
    dir: PathView,
    opts: Options,
)
    requires
        0 <= i < items.len(),
        items[i] is Other,
    ensures
        opts.remove_doc ==> item_outcome(tree, items, i, file, dir, opts) == Outcome::Text(
            tokens_text(stripped(tokens_view(items[i]->Other_0@))) + seq!['\n'],
        ) && doc_free(stripped(tokens_view(items[i]->Other_0@))),
        !opts.remove_doc ==> item_outcome(tree, items, i, file, dir, opts) == Outcome::Text(
            tokens_text(tokens_view(items[i]->Other_0@)) + seq!['\n'],
        ),
{
    lemma_stripped_doc_free(tokens_view(items[i]->Other_0@));
}

proof fn lemma_found_within_depth(e: Seq<(Vec<String>, Probe)>, p: PathView, j: int)
    requires
        0 <= j,
        find_from(e, p, j) is Some,
    ensures
        p.len() <= depth_from(e, j),
    decreases e.len() - j,
{
    if j < e.len() && path_view(e[j].0@) != p {
        lemma_found_within_depth(e, p, j + 1);
    }
}

/// A module gated by `#[cfg(test)]` is left out when test modules are
/// removed, and no file is looked up for it: the outcome is the same for
/// every snapshot of the files.
pub proof fn law_test_module_skipped(
    tree: SourceTree,
    items: Seq<SourceItem>,
    i: int,
    file: PathView,
    dir: PathView,
    opts: Options,
)
    requires
        0 <= i < items.len(),
        items[i] is Module,
        has_test_gate(items[i]->Module_0.attrs@),
        opts.remove_test,
    ensures
        item_outcome(tree, items, i, file, dir, opts) == Outcome::Text(Seq::empty()),
{
}

/// A module declared without a body, of which neither `name.rs` nor
/// `name/mod.rs` exists, fails with both paths named; so does a test-only
/// one when test modules are kept.
pub proof fn law_missing_module(
    tree: SourceTree,
    items: Seq<SourceItem>,
    i: int,
    file: PathView,
    dir: PathView,
    opts: Options,
)
    requires
        0 <= i < items.len(),
        items[i] is Module,
        items[i]->Module_0.body is None,
        items[i]->Module_0.vis != Visibility::Restricted,
        !(opts.remove_test && has_test_gate(items[i]->Module_0.attrs@)),
        probe_of(tree, file_candidate(dir, items[i]->Module_0.name@)) == Some(Probe::Absent),
        probe_of(tree, dir_candidate(dir, items[i]->Module_0.name@)) == Some(Probe::Absent),
    ensures
        item_outcome(tree, items, i, file, dir, opts) == Outcome::Failed(
            Fault::ModuleNotFound(
                items[i]->Module_0.name@,
                file_candidate(dir, items[i]->Module_0.name@),
                dir_candidate(dir, items[i]->Module_0.name@),
            ),
        ),
{
    lemma_found_within_depth(tree.entries@, file_candidate(dir, items[i]->Module_0.name@), 0);
    assert(room(tree, dir) > 0);
}

/// `mod name;` with no `name.rs` and a parsed `name/mod.rs` is that file's
/// flattened text in a block, and that file's own child modules are looked
/// up in `dir/name`.
pub proof fn law_directory_module(
    tree: SourceTree,
    items: Seq<SourceItem>,
    i: int,
    file: PathView,
    dir: PathView,
    opts: Options,
)
    requires
        0 <= i < items.len(),
        items[i] is Module,
        items[i]->Module_0.body is None,
        items[i]->Module_0.vis != Visibility::Restricted,
        !(opts.remove_test && has_test_gate(items[i]->Module_0.attrs@)),
        probe_of(tree, file_candidate(dir, items[i]->Module_0.name@)) == Some(Probe::Absent),
        probe_of(tree, dir_candidate(dir, items[i]->Module_0.name@)) is Some,
        probe_of(tree, dir_candidate(dir, items[i]->Module_0.name@))->Some_0 is Parsed,
    ensures
        item_outcome(tree, items, i, file, dir, opts) == wrap(
            items[i]->Module_0,
            opts,
            unit_outcome(
                tree,
                probe_of(tree, dir_candidate(dir, items[i]->Module_0.name@))->Some_0->Parsed_0,
                dir_candidate(dir, items[i]->Module_0.name@),
                dir.push(items[i]->Module_0.name@),
                opts,
            ),
        ),
{
    lemma_found_within_depth(tree.entries@, file_candidate(dir, items[i]->Module_0.name@), 0);
    assert(room(tree, dir) > 0);
}

/// A module that is written out opens with its outer attributes, then `pub `
/// if it is public and nothing if it is private, then `mod <name> {`; one
/// declared `pub(..)` fails.
pub proof fn law_visibility(
    tree: SourceTree,
    items: Seq<SourceItem>,
    i: int,
    file: PathView,
    dir: PathView,
    opts: Options,
)
    requires
        0 <= i < items.len(),
        items[i] is Module,
        !(opts.remove_test && has_test_gate(items[i]->Module_0.attrs@)),
    ensures
        items[i]->Module_0.vis == Visibility::Restricted ==> item_outcome(tree, items, i, file, dir, opts)
            == Outcome::Failed(Fault::UnsupportedVisibility(items[i]->Module_0.name@, file)),
        match item_outcome(tree, items, i, file, dir, opts) {
            Outcome::Text(t) => {
                let head = module_open(items[i]->Module_0, opts);
                t.len() >= head.len() && t.subrange(0, head.len() as int) == head
            },
            _ => true,
        },
{
    let m = items[i]->Module_0;
    let head = module_open(m, opts);
    assert forall|inner: Outcome| #[trigger] wrap(m, opts, inner) is Text implies {
        let t = wrap(m, opts, inner)->Text_0;
        t.len() >= head.len() && t.subrange(0, head.len() as int) == head
    } by {
        if inner is Text {
            let t = wrap(m, opts, inner)->Text_0;
            assert(t.subrange(0, head.len() as int) =~= head);
        }
    }
}

proof fn lemma_kept_attrs_no_doc(attrs: Seq<Vec<Token>>, i: int)
    requires
        0 <= i <= attrs.len(),
    ensures
        no_doc_attrs(kept_attrs(attrs, i)),
    decreases attrs.len() - i,
{
    if i < attrs.len() {
        lemma_kept_attrs_no_doc(attrs, i + 1);
        let rest = kept_attrs(attrs, i + 1);
        let a = tokens_view(attrs[i]@);
        if !attr_is_doc(a) {
            assert forall|k: int| 0 <= k < (seq![a] + rest).len() implies !attr_is_doc(
                #[trigger] (seq![a] + rest)[k],
            ) by {
                if k > 0 {
                    assert((seq![a] + rest)[k] == rest[k - 1]);
                }
            }
        }
    }
}

proof fn lemma_kept_attrs_all(attrs: Seq<Vec<Token>>, i: int)
    requires
        0 <= i <= attrs.len(),
        no_doc_attrs(attr_views(attrs)),
    ensures
        kept_attrs(attrs, i) == attr_views(attrs).subrange(i, attrs.len() as int),
    decreases attrs.len() - i,
{
    if i < attrs.len() {
        lemma_kept_attrs_all(attrs, i + 1);
        assert(attr_views(attrs)[i] == tokens_view(attrs[i]@));
        assert(kept_attrs(attrs, i) =~= attr_views(attrs).subrange(i, attrs.len() as int));
    } else {
        assert(attr_views(attrs).subrange(i, attrs.len() as int) =~= Seq::<Seq<TokenView>>::empty());
    }
}

/// After removal, no documentation attribute is left among the attributes of
/// any module nor in any item's tokens (outside macro bodies and attribute
/// arguments), at every depth.
pub proof fn law_removed_items_doc_free(before: Seq<SourceItem>, after: Seq<SourceItem>, i: int)
    requires
        0 <= i,
        items_docs_removed(before, after, i),
    ensures
        items_doc_free(after, i),
    decreases before, before.len() - i,
{
    if i < before.len() {
        law_removed_items_doc_free(before, after, i + 1);
        match (before[i], after[i]) {
            (SourceItem::Other(x), SourceItem::Other(y)) => {
                lemma_stripped_doc_free(tokens_view(x@));
            },
            (SourceItem::Module(m), SourceItem::Module(n)) => {
                lemma_kept_attrs_no_doc(m.attrs@, 0);
                match (m.body, n.body) {
                    (Some(b), Some(c)) => law_removed_items_doc_free(b@, c@, 0),
                    _ => {},
                }
            },
            _ => {},
        }
    }
}

/// Removing documentation attributes from items that hold none leaves them as
/// they are, modules included.
pub proof fn law_removal_keeps_doc_free_items(
    before: Seq<SourceItem>,
    after: Seq<SourceItem>,
    i: int,
)
    requires
        0 <= i,
        items_doc_free(before, i),
        items_docs_removed(before, after, i),
    ensures
        items_same(before, after, i),
    decreases before, before.len() - i,
{
    if i < before.len() {
        law_removal_keeps_doc_free_items(before, after, i + 1);
        match (before[i], after[i]) {
            (SourceItem::Other(x), SourceItem::Other(y)) => {
                let v = tokens_view(x@);
                lemma_doc_free_unchanged(v, 0);
                assert(v.subrange(0, v.len() as int) =~= v);
            },
            (SourceItem::Module(m), SourceItem::Module(n)) => {
                lemma_kept_attrs_all(m.attrs@, 0);
                assert(attr_views(m.attrs@).subrange(0, m.attrs@.len() as int) =~= attr_views(
                    m.attrs@,
                ));
                match (m.body, n.body) {
                    (Some(b), Some(c)) => law_removal_keeps_doc_free_items(b@, c@, 0),
                    _ => {},
                }
            },
            _ => {},
        }
    }
}

/// `remove_doc_attrs` on one item: nothing documentary is left, and an item
/// without documentation attributes comes back as it was.
pub proof fn law_remove_doc_attrs(before: SourceItem, after: SourceItem)
    requires
        docs_removed(before, after),
    ensures
        items_doc_free(seq![after], 0),
        items_doc_free(seq![before], 0) ==> items_same(seq![before], seq![after], 0),
{
    law_removed_items_doc_free(seq![before], seq![after], 0);
    if items_doc_free(seq![before], 0) {
        law_removal_keeps_doc_free_items(seq![before], seq![after], 0);
    }
}

/// Removing documentation attributes twice gives what removing them once gives.
pub proof fn law_strip_idempotent(s: Seq<TokenView>)
    ensures
        stripped(stripped(s)) == stripped(s),
{
    let once = stripped(s);
    lemma_stripped_doc_free(s);
    lemma_doc_free_unchanged(once, 0);
    assert(once.subrange(0, once.len() as int) =~= once);
}

/// `remove_doc_attrs` applied to its own result changes nothing.
pub proof fn law_remove_doc_attrs_twice(first: SourceItem, once: SourceItem, twice: SourceItem)
    requires
        docs_removed(first, once),
        docs_removed(once, twice),
    ensures
        items_same(seq![once], seq![twice], 0),
{
    law_removed_items_doc_free(seq![first], seq![once], 0);
    law_removal_keeps_doc_free_items(seq![once], seq![twice], 0);
}

} // verus!
