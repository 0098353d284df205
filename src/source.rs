//! The parsed form of one source file: its items, module declarations and
//! attributes, as plain values.
use vstd::prelude::*;
use vstd::string::*;
use crate::text::push_char;
use crate::token::{
    Delim, Token, TokenView, doc_word, is_doc_group, is_punct, is_word, lemma_tokens_view, token_view,
    tokens_text, tokens_view, write_tokens,
};

verus! {

broadcast use vstd::std_specs::vec::group_vec_axioms, vstd::seq::group_seq_axioms;

/// The visibility written on a module declaration.
#[derive(Clone, Copy, Debug, PartialEq, Eq, Structural)]
pub enum Visibility {
    /// No qualifier.
    Private,
    /// `pub`.
    Public,
    /// `pub(crate)`, `pub(super)`, `pub(in path)`.
    Restricted,
}

/// A `mod` item: its attributes (each one as its tokens, `#` first), its
/// visibility, its name, and its items when they are written inline.
#[derive(Debug)]
pub struct ModuleDecl {
    pub attrs: Vec<Vec<Token>>,
    pub vis: Visibility,
    pub name: String,
    pub body: Option<Vec<SourceItem>>,
}

/// A top-level item of a file or of an inline module.
#[derive(Debug)]
pub enum SourceItem {
    Module(ModuleDecl),
    /// Any other item, as its tokens.
    Other(Vec<Token>),
}

/// One parsed source file.
#[derive(Debug)]
pub struct SourceUnit {
    pub shebang: Option<String>,
    pub attrs: Vec<Vec<Token>>,
    pub items: Vec<SourceItem>,
}

pub open spec fn cfg_word() -> Seq<char> {
    seq!['c', 'f', 'g']
}

pub open spec fn test_word() -> Seq<char> {
    seq!['t', 'e', 's', 't']
}

/// An inner attribute: `#![...]`.
pub open spec fn attr_is_inner(a: Seq<TokenView>) -> bool {
    a.len() >= 2 && is_punct(a[1], '!')
}

/// A documentation attribute: `#[doc ...]` or `#![doc ...]`.
pub open spec fn attr_is_doc(a: Seq<TokenView>) -> bool {
    a.len() >= 2 && is_punct(a[0], '#') && is_doc_group(a.last())
}

/// The bracket group `[cfg(test)]`: a configuration condition that is the
/// identifier `test` alone.
pub open spec fn is_test_gate_group(t: TokenView) -> bool {
    match t {
        TokenView::Group(Delim::Bracket, b) => {
            &&& b.len() == 2
            &&& b[0] == TokenView::Ident(cfg_word())
            &&& match b[1] {
                TokenView::Group(Delim::Paren, c) => c.len() == 1 && c[0] == TokenView::Ident(
                    test_word(),
                ),
                _ => false,
            }
        },
        _ => false,
    }
}

/// `#[cfg(test)]` (or its inner form).
pub open spec fn attr_is_test_gate(a: Seq<TokenView>) -> bool {
    a.len() >= 2 && is_punct(a[0], '#') && is_test_gate_group(a.last())
}

/// Which attributes of a list are written at one place.
#[derive(Clone, Copy, Debug, PartialEq, Eq, Structural)]
pub enum AttrPlace {
    All,
    Outer,
    Inner,
}

pub open spec fn attr_shown(a: Seq<TokenView>, place: AttrPlace, drop_doc: bool) -> bool {
    &&& match place {
        AttrPlace::All => true,
        AttrPlace::Outer => !attr_is_inner(a),
        AttrPlace::Inner => attr_is_inner(a),
    }
    &&& !(drop_doc && attr_is_doc(a))
}

/// The lines written for the attributes `attrs[i..]` that are shown at `place`.
pub open spec fn attrs_text_from(
    attrs: Seq<Vec<Token>>,
    i: int,
    place: AttrPlace,
    drop_doc: bool,
) -> Seq<char>
    decreases attrs.len() - i,
{
    if 0 <= i < attrs.len() {
        let a = tokens_view(attrs[i]@);
        let line = if attr_shown(a, place, drop_doc) {
            tokens_text(a) + seq!['\n']
        } else {
            Seq::empty()
        };
        line + attrs_text_from(attrs, i + 1, place, drop_doc)
    } else {
        Seq::empty()
    }
}

pub open spec fn attrs_text(attrs: Seq<Vec<Token>>, place: AttrPlace, drop_doc: bool) -> Seq<
    char,
> {
    attrs_text_from(attrs, 0, place, drop_doc)
}

/// Some attribute of `attrs` is `#[cfg(test)]`.
pub open spec fn has_test_gate(attrs: Seq<Vec<Token>>) -> bool {
    exists|k: int| 0 <= k < attrs.len() && attr_is_test_gate(#[trigger] tokens_view(attrs[k]@))
}

fn is_ident_token(t: &Token, w: &str) -> (r: bool)
    ensures
        r == (token_view(*t) == TokenView::Ident(w@)),
{
    match t {
        Token::Ident(x) => is_word(x, w),
        _ => false,
    }
}

fn is_punct_at(a: &Vec<Token>, i: usize, ch: char) -> (r: bool)
    requires
        i < a@.len(),
    ensures
        r == is_punct(tokens_view(a@)[i as int], ch),
{
    proof {
        lemma_tokens_view(a@);
    }
    match &a[i] {
        Token::Punct(c, _) => *c == ch,
        _ => false,
    }
}

pub(crate) fn is_doc_attr(a: &Vec<Token>) -> (r: bool)
    ensures
        r == attr_is_doc(tokens_view(a@)),
{
    proof {
        lemma_tokens_view(a@);
        reveal_strlit("doc");
        assert("doc"@ =~= doc_word());
    }
    let n = a.len();
    if n < 2 || !is_punct_at(a, 0, '#') {
        return false;
    }
    match &a[n - 1] {
        Token::Group(Delim::Bracket, body) => {
            proof {
                lemma_tokens_view(body@);
            }
            body.len() >= 1 && is_ident_token(&body[0], "doc") && !(body.len() >= 2
                && is_punct_at(body, 1, ':'))
        },
        _ => false,
    }
}

fn is_test_gate_attr(a: &Vec<Token>) -> (r: bool)
    ensures
        r == attr_is_test_gate(tokens_view(a@)),
{
    proof {
        lemma_tokens_view(a@);
        reveal_strlit("cfg");
        reveal_strlit("test");
        assert("cfg"@ =~= cfg_word());
        assert("test"@ =~= test_word());
    }
    let n = a.len();
    if n < 2 || !is_punct_at(a, 0, '#') {
        return false;
    }
    match &a[n - 1] {
        Token::Group(Delim::Bracket, b) => {
            proof {
                lemma_tokens_view(b@);
            }
            if b.len() != 2 || !is_ident_token(&b[0], "cfg") {
                return false;
            }
            match &b[1] {
                Token::Group(Delim::Paren, c) => {
                    proof {
                        lemma_tokens_view(c@);
                    }
                    c.len() == 1 && is_ident_token(&c[0], "test")
                },
                _ => false,
            }
        },
        _ => false,
    }
}

/// Whether some attribute of `attrs` is `#[cfg(test)]`.
pub fn test_gated(attrs: &Vec<Vec<Token>>) -> (r: bool)
    ensures
        r == has_test_gate(attrs@),
{
    let mut i: usize = 0;
    while i < attrs.len()
        invariant
            0 <= i <= attrs@.len(),
            forall|k: int| 0 <= k < i ==> !attr_is_test_gate(#[trigger] tokens_view(attrs@[k]@)),
        decreases attrs.len() - i,
    {
        if is_test_gate_attr(&attrs[i]) {
            return true;
        }
        i += 1;
    }
    false
}

/// Appends the lines of the attributes of `attrs` that are shown at `place`.
pub fn write_attrs(out: &mut String, attrs: &Vec<Vec<Token>>, place: AttrPlace, drop_doc: bool)
    ensures
        final(out)@ == old(out)@ + attrs_text(attrs@, place, drop_doc),
{
    let ghost start = out@;
    let mut i: usize = 0;
    while i < attrs.len()
        invariant
            0 <= i <= attrs@.len(),
            out@ + attrs_text_from(attrs@, i as int, place, drop_doc) == start + attrs_text(
                attrs@,
                place,
                drop_doc,
            ),
        decreases attrs.len() - i,
    {
        let ghost before = out@;
        let a = &attrs[i];
        proof {
            lemma_tokens_view(a@);
        }
        let inner = a.len() >= 2 && is_punct_at(a, 1, '!');
        let placed = match place {
            AttrPlace::All => true,
            AttrPlace::Outer => !inner,
            AttrPlace::Inner => inner,
        };
        assert(placed == match place {
            AttrPlace::All => true,
            AttrPlace::Outer => !attr_is_inner(tokens_view(a@)),
            AttrPlace::Inner => attr_is_inner(tokens_view(a@)),
        });
        if placed && !(drop_doc && is_doc_attr(a)) {
            write_tokens(out, a);
            push_char(out, '\n');
        }
        assert(out@ + attrs_text_from(attrs@, i + 1, place, drop_doc) =~= before
            + attrs_text_from(attrs@, i as int, place, drop_doc));
        i += 1;
    }
}

} // verus!
