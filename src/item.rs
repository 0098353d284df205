//! Removing documentation attributes from a whole item.
use vstd::prelude::*;
use crate::source::{ModuleDecl, SourceItem, attr_is_doc};
use crate::token::{
    Token, TokenView, copy_tokens, doc_free, lemma_tokens_view, strip_doc_tokens, stripped, token_view,
    tokens_view,
};

verus! {

broadcast use vstd::std_specs::vec::group_vec_axioms, vstd::seq::group_seq_axioms;

/// The views of the attributes of `attrs[i..]` that are not documentation.
pub open spec fn kept_attrs(attrs: Seq<Vec<Token>>, i: int) -> Seq<Seq<TokenView>>
    decreases attrs.len() - i,
{
    if 0 <= i < attrs.len() {
        let a = tokens_view(attrs[i]@);
        if attr_is_doc(a) {
            kept_attrs(attrs, i + 1)
        } else {
            seq![a] + kept_attrs(attrs, i + 1)
        }
    } else {
        Seq::empty()
    }
}

pub open spec fn attr_views(attrs: Seq<Vec<Token>>) -> Seq<Seq<TokenView>> {
    attrs.map_values(|a: Vec<Token>| tokens_view(a@))
}

/// `n` is `m` with the same visibility and name and only its attributes that
/// are not documentation.
pub open spec fn module_head_kept(m: ModuleDecl, n: ModuleDecl) -> bool {
    &&& n.vis == m.vis
    &&& n.name@ == m.name@
    &&& attr_views(n.attrs@) == kept_attrs(m.attrs@, 0)
}

/// `after[i..]` is `before[i..]` with every documentation attribute removed,
/// at every depth.
pub open spec fn items_docs_removed(before: Seq<SourceItem>, after: Seq<SourceItem>, i: int) -> bool
    decreases before, before.len() - i,
{
    &&& before.len() == after.len()
    &&& 0 <= i < before.len() ==> {
        &&& match (before[i], after[i]) {
            (SourceItem::Other(x), SourceItem::Other(y)) => tokens_view(y@) == stripped(
                tokens_view(x@),
            ),
            (SourceItem::Module(m), SourceItem::Module(n)) => {
                &&& module_head_kept(m, n)
                &&& match (m.body, n.body) {
                    (None, None) => true,
                    (Some(x), Some(y)) => items_docs_removed(x@, y@, 0),
                    _ => false,
                }
            },
            _ => false,
        }
        &&& items_docs_removed(before, after, i + 1)
    }
}

/// No attribute of `attrs` is a documentation attribute.
pub open spec fn no_doc_attrs(attrs: Seq<Seq<TokenView>>) -> bool {
    forall|k: int| 0 <= k < attrs.len() ==> !attr_is_doc(#[trigger] attrs[k])
}

/// The items `items[i..]` hold no documentation attribute: none in the tokens
/// of an item (outside macro bodies and attribute arguments), none among the
/// attributes of a module, at every depth.
pub open spec fn items_doc_free(items: Seq<SourceItem>, i: int) -> bool
    decreases items, items.len() - i,
{
    0 <= i < items.len() ==> {
        &&& match items[i] {
            SourceItem::Other(x) => doc_free(tokens_view(x@)),
            SourceItem::Module(m) => {
                &&& no_doc_attrs(attr_views(m.attrs@))
                &&& match m.body {
                    Some(b) => items_doc_free(b@, 0),
                    None => true,
                }
            },
        }
        &&& items_doc_free(items, i + 1)
    }
}

/// `after[i..]` is `before[i..]` as values: same variants, tokens, names,
/// visibilities and attributes, at every depth.
pub open spec fn items_same(before: Seq<SourceItem>, after: Seq<SourceItem>, i: int) -> bool
    decreases before, before.len() - i,
{
    &&& before.len() == after.len()
    &&& 0 <= i < before.len() ==> {
        &&& match (before[i], after[i]) {
            (SourceItem::Other(x), SourceItem::Other(y)) => tokens_view(y@) == tokens_view(x@),
            (SourceItem::Module(m), SourceItem::Module(n)) => {
                &&& n.vis == m.vis
                &&& n.name@ == m.name@
                &&& attr_views(n.attrs@) == attr_views(m.attrs@)
                &&& match (m.body, n.body) {
                    (None, None) => true,
                    (Some(x), Some(y)) => items_same(x@, y@, 0),
                    _ => false,
                }
            },
            _ => false,
        }
        &&& items_same(before, after, i + 1)
    }
}

/// `after` is `before` with every documentation attribute removed, at every depth.
pub open spec fn docs_removed(before: SourceItem, after: SourceItem) -> bool {
    items_docs_removed(seq![before], seq![after], 0)
}

fn kept_attr_list(attrs: &Vec<Vec<Token>>) -> (r: Vec<Vec<Token>>)
    ensures
        attr_views(r@) == kept_attrs(attrs@, 0),
{
    let mut rev: Vec<Vec<Token>> = Vec::new();
    let mut i: usize = attrs.len();
    while i > 0
        invariant
            0 <= i <= attrs@.len(),
            attr_views(rev@).reverse() == kept_attrs(attrs@, i as int),
        decreases i,
    {
        i -= 1;
        let ghost before = attr_views(rev@);
        if !crate::source::is_doc_attr(&attrs[i]) {
            let a = copy_tokens(&attrs[i]);
            rev.push(a);
            assert(attr_views(rev@) =~= before.push(tokens_view(a@)));
            assert(attr_views(rev@).reverse() =~= seq![tokens_view(attrs@[i as int]@)]
                + kept_attrs(attrs@, i + 1));
        }
    }
    let mut out: Vec<Vec<Token>> = Vec::new();
    while rev.len() > 0
        invariant
            attr_views(out@) + attr_views(rev@).reverse() == kept_attrs(attrs@, 0),
        decreases rev.len(),
    {
        let ghost r0 = attr_views(rev@);
        let ghost o0 = attr_views(out@);
        let a = rev.pop().unwrap();
        out.push(a);
        assert(attr_views(out@) =~= o0.push(tokens_view(a@)));
        assert(attr_views(rev@) =~= r0.drop_last());
        assert(attr_views(out@) + attr_views(rev@).reverse() =~= o0 + r0.reverse());
    }
    assert(attr_views(rev@).reverse() =~= Seq::<Seq<TokenView>>::empty());
    assert(attr_views(out@) =~= kept_attrs(attrs@, 0));
    out
}

/// `items[i]` without any documentation attribute.
fn item_at_without_docs(items: &Vec<SourceItem>, i: usize) -> (r: SourceItem)
    requires
        i < items@.len(),
    ensures
        one_removed(items@, seq![r], i as int, 0),
    decreases items@, 0int,
{
    match &items[i] {
        SourceItem::Other(ts) => SourceItem::Other(strip_doc_tokens(ts)),
        SourceItem::Module(m) => SourceItem::Module(
            ModuleDecl {
                attrs: kept_attr_list(&m.attrs),
                vis: m.vis,
                name: m.name.clone(),
                body: match &m.body {
                    Some(b) => Some(items_without_docs(b)),
                    None => None,
                },
            },
        ),
    }
}

fn items_without_docs(items: &Vec<SourceItem>) -> (r: Vec<SourceItem>)
    ensures
        items_docs_removed(items@, r@, 0),
    decreases items@, 1int,
{
    let mut r: Vec<SourceItem> = Vec::new();
    let mut i: usize = 0;
    while i < items.len()
        invariant
            0 <= i <= items@.len(),
            r@.len() == i,
            forall|k: int|
                0 <= k < i ==> #[trigger] one_removed(items@, r@, k, k),
        decreases items.len() - i,
    {
        let t = item_at_without_docs(items, i);
        let ghost r0 = r@;
        r.push(t);
        assert forall|k: int| 0 <= k <= i implies #[trigger] one_removed(items@, r@, k, k) by {
            if k < i {
                assert(one_removed(items@, r0, k, k));
                assert(r@[k] == r0[k]);
            } else {
                assert(one_removed(items@, seq![t], k, 0));
                assert(r@[k] == t);
            }
        }
        i += 1;
    }
    proof {
        lemma_items_removed(items@, r@, 0);
    }
    r
}

/// `after[j]` is `before[k]` with every documentation attribute removed.
spec fn one_removed(before: Seq<SourceItem>, after: Seq<SourceItem>, k: int, j: int) -> bool {
    &&& 0 <= k < before.len()
    &&& 0 <= j < after.len()
    &&& match (before[k], after[j]) {
        (SourceItem::Other(x), SourceItem::Other(y)) => tokens_view(y@) == stripped(
            tokens_view(x@),
        ),
        (SourceItem::Module(m), SourceItem::Module(n)) => {
            &&& module_head_kept(m, n)
            &&& match (m.body, n.body) {
                (None, None) => true,
                (Some(x), Some(y)) => items_docs_removed(x@, y@, 0),
                _ => false,
            }
        },
        _ => false,
    }
}

proof fn lemma_items_removed(before: Seq<SourceItem>, after: Seq<SourceItem>, i: int)
    requires
        0 <= i <= before.len(),
        before.len() == after.len(),
        forall|k: int| 0 <= k < before.len() ==> #[trigger] one_removed(before, after, k, k),
    ensures
        items_docs_removed(before, after, i),
    decreases before.len() - i,
{
    if i < before.len() {
        lemma_items_removed(before, after, i + 1);
        assert(one_removed(before, after, i, i));
    }
}

/// The pass that removes documentation attributes from items.
pub struct RemoveDocAttrs;

impl RemoveDocAttrs {
    pub fn new() -> (r: Self)
        ensures
            r == RemoveDocAttrs,
    {
        RemoveDocAttrs
    }

    /// `item` without any documentation attribute, at any depth: in the tokens
    /// of an item (macro bodies and attribute arguments kept as written), and
    /// among the attributes of a module and of every item inside it.
    pub fn visit_item(&self, item: SourceItem) -> (r: SourceItem)
        ensures
            docs_removed(item, r),
    {
        let mut one: Vec<SourceItem> = Vec::new();
        one.push(item);
        let r = item_at_without_docs(&one, 0);
        proof {
            assert(one@ =~= seq![item]);
            lemma_items_removed(seq![item], seq![r], 0);
        }
        r
    }
}

/// `item` without any documentation attribute, at any depth (macro bodies and
/// attribute arguments are kept as written).
pub fn remove_doc_attrs(item: SourceItem) -> (r: SourceItem)
    ensures
        docs_removed(item, r),
{
    RemoveDocAttrs::new().visit_item(item)
}

} // verus!
