//! Token trees, their mathematical view, documentation-attribute removal and
//! rendering back to source text.
use vstd::prelude::*;
use vstd::string::*;
use crate::text::{push_char, push_text};

verus! {

broadcast use vstd::std_specs::vec::group_vec_axioms, vstd::seq::group_seq_axioms;

/// The delimiter of a token group.
#[derive(Clone, Copy, Debug, PartialEq, Eq, Structural)]
pub enum Delim {
    Paren,
    Bracket,
    Brace,
    Invisible,
}

/// One token tree of Rust source: a delimited group, an identifier (keywords
/// included), a punctuation character, or a literal as written.
/// A punctuation character is `joint` when the next character follows it
/// without a space (the first half of `::` or `->`).
#[derive(Debug)]
pub enum Token {
    Group(Delim, Vec<Token>),
    Ident(String),
    Punct(char, bool),
    Literal(String),
}

/// The mathematical value of a token tree.
pub enum TokenView {
    Group(Delim, Seq<TokenView>),
    Ident(Seq<char>),
    Punct(char, bool),
    Literal(Seq<char>),
}

pub open spec fn token_view(t: Token) -> TokenView {
    match t {
        Token::Group(d, body) => TokenView::Group(d, tokens_view(body@)),
        Token::Ident(s) => TokenView::Ident(s@),
        Token::Punct(c, j) => TokenView::Punct(c, j),
        Token::Literal(s) => TokenView::Literal(s@),
    }
}

/// The views of the first `n` tokens of `s`.
pub open spec fn tokens_view_upto(s: Seq<Token>, n: int) -> Seq<TokenView>
    decreases s, n,
{
    if 0 < n <= s.len() {
        let last = match s[n - 1] {
            Token::Group(d, body) => TokenView::Group(d, tokens_view_upto(body@, body@.len() as int)),
            Token::Ident(x) => TokenView::Ident(x@),
            Token::Punct(c, j) => TokenView::Punct(c, j),
            Token::Literal(x) => TokenView::Literal(x@),
        };
        tokens_view_upto(s, n - 1).push(last)
    } else {
        Seq::empty()
    }
}

pub open spec fn tokens_view(s: Seq<Token>) -> Seq<TokenView> {
    tokens_view_upto(s, s.len() as int)
}

proof fn lemma_view_upto(s: Seq<Token>, n: int)
    requires
        0 <= n <= s.len(),
    ensures
        tokens_view_upto(s, n).len() == n,
        forall|k: int| 0 <= k < n ==> #[trigger] tokens_view_upto(s, n)[k] == token_view(s[k]),
    decreases n,
{
    if n > 0 {
        lemma_view_upto(s, n - 1);
    }
}

/// The view of a sequence of tokens is taken element by element.
pub proof fn lemma_tokens_view(s: Seq<Token>)
    ensures
        tokens_view(s).len() == s.len(),
        forall|k: int| 0 <= k < s.len() ==> #[trigger] tokens_view(s)[k] == token_view(s[k]),
{
    lemma_view_upto(s, s.len() as int);
}

proof fn lemma_tokens_view_push(s: Seq<Token>, t: Token)
    ensures
        tokens_view(s.push(t)) == tokens_view(s).push(token_view(t)),
{
    lemma_tokens_view(s);
    lemma_tokens_view(s.push(t));
    assert(tokens_view(s.push(t)) =~= tokens_view(s).push(token_view(t)));
}

proof fn lemma_tokens_view_pop(s: Seq<Token>)
    requires
        s.len() > 0,
    ensures
        tokens_view(s.drop_last()) == tokens_view(s).drop_last(),
{
    lemma_tokens_view(s);
    lemma_tokens_view(s.drop_last());
    assert(tokens_view(s.drop_last()) =~= tokens_view(s).drop_last());
}

pub open spec fn is_punct(t: TokenView, ch: char) -> bool {
    match t {
        TokenView::Punct(c, _) => c == ch,
        _ => false,
    }
}

pub open spec fn is_joint(t: TokenView) -> bool {
    match t {
        TokenView::Punct(_, j) => j,
        _ => false,
    }
}

pub open spec fn doc_word() -> Seq<char> {
    seq!['d', 'o', 'c']
}

/// A bracket group whose attribute path is the single identifier `doc`:
/// the body of `#[doc = "..."]`, `#[doc(hidden)]` or `#![doc = "..."]`.
pub open spec fn is_doc_group(t: TokenView) -> bool {
    match t {
        TokenView::Group(Delim::Bracket, body) => {
            &&& body.len() >= 1
            &&& body[0] == TokenView::Ident(doc_word())
            &&& !(body.len() >= 2 && is_punct(body[1], ':'))
        },
        _ => false,
    }
}

/// A documentation attribute starts at position `i` of `s`: `#` then its
/// bracket group, or `#`, `!` and the bracket group.
pub open spec fn doc_attr_at(s: Seq<TokenView>, i: int) -> bool {
    &&& 0 <= i < s.len()
    &&& is_punct(s[i], '#')
    &&& {
        ||| (i + 1 < s.len() && is_doc_group(s[i + 1]))
        ||| (i + 2 < s.len() && is_punct(s[i + 1], '!') && is_doc_group(s[i + 2]))
    }
}

/// Words after which `!` is negation rather than the end of a macro's path.
pub open spec fn is_negating_keyword(x: Seq<char>) -> bool {
    ||| x == seq!['i', 'f']
    ||| x == seq!['w', 'h', 'i', 'l', 'e']
    ||| x == seq!['m', 'a', 't', 'c', 'h']
    ||| x == seq!['r', 'e', 't', 'u', 'r', 'n']
    ||| x == seq!['b', 'r', 'e', 'a', 'k']
    ||| x == seq!['i', 'n']
    ||| x == seq!['y', 'i', 'e', 'l', 'd']
    ||| x == seq!['e', 'l', 's', 'e']
    ||| x == seq!['m', 'u', 't']
}

/// An identifier that can end the path of a macro call.
pub open spec fn is_macro_path_end(t: TokenView) -> bool {
    match t {
        TokenView::Ident(x) => !is_negating_keyword(x),
        _ => false,
    }
}

/// The group at position `i` holds tokens that are not syntax of their own:
/// the arguments of an attribute (after `#` or `#!`), the body of a macro call
/// (after `path!`) or of a macro definition (after `path! name`). Such a group
/// is left exactly as written.
pub open spec fn is_opaque_group(s: Seq<TokenView>, i: int) -> bool {
    &&& 1 <= i < s.len()
    &&& s[i] is Group
    &&& {
        ||| is_punct(s[i - 1], '#')
        ||| (i >= 2 && is_punct(s[i - 1], '!') && (is_punct(s[i - 2], '#') || is_macro_path_end(
            s[i - 2],
        )))
        ||| (i >= 3 && s[i - 1] is Ident && is_punct(s[i - 2], '!') && is_macro_path_end(s[i - 3]))
    }
}

/// No documentation attribute starts at position `i` or later, at any depth
/// outside macro bodies and attribute arguments.
pub open spec fn doc_free_from(s: Seq<TokenView>, i: int) -> bool
    decreases s, s.len() - i,
{
    if 0 <= i < s.len() {
        &&& !doc_attr_at(s, i)
        &&& match s[i] {
            TokenView::Group(_, body) => is_opaque_group(s, i) || doc_free_from(body, 0),
            _ => true,
        }
        &&& doc_free_from(s, i + 1)
    } else {
        true
    }
}

/// No documentation attribute occurs in `s` outside macro bodies and
/// attribute arguments.
pub open spec fn doc_free(s: Seq<TokenView>) -> bool {
    doc_free_from(s, 0)
}

/// `s` from position `i` on, with every documentation attribute removed at
/// every depth; macro bodies and attribute arguments are kept as written.
/// The sequence is read from its end, so that removing one attribute can
/// never bring a `#` next to the bracket group of another.
pub open spec fn stripped_from(s: Seq<TokenView>, i: int) -> Seq<TokenView>
    decreases s, s.len() - i,
{
    if 0 <= i < s.len() {
        let rest = stripped_from(s, i + 1);
        if is_punct(s[i], '#') && rest.len() >= 1 && is_doc_group(rest[0]) {
            rest.drop_first()
        } else if is_punct(s[i], '#') && rest.len() >= 2 && is_punct(rest[0], '!')
            && is_doc_group(rest[1]) {
            rest.subrange(2, rest.len() as int)
        } else {
            let head = match s[i] {
                TokenView::Group(d, body) => if is_opaque_group(s, i) {
                    s[i]
                } else {
                    TokenView::Group(d, stripped_from(body, 0))
                },
                _ => s[i],
            };
            seq![head] + rest
        }
    } else {
        Seq::empty()
    }
}

/// `s` with every documentation attribute removed, at every depth outside
/// macro bodies and attribute arguments.
pub open spec fn stripped(s: Seq<TokenView>) -> Seq<TokenView> {
    stripped_from(s, 0)
}

/// One token with the documentation attributes inside it removed.
pub open spec fn stripped_token(t: TokenView) -> TokenView {
    match t {
        TokenView::Group(d, body) => TokenView::Group(d, stripped(body)),
        _ => t,
    }
}

pub open spec fn open_text(d: Delim) -> Seq<char> {
    match d {
        Delim::Paren => seq!['('],
        Delim::Bracket => seq!['['],
        Delim::Brace => seq!['{', ' '],
        Delim::Invisible => Seq::empty(),
    }
}

/// The closing delimiter; a brace group that is not empty gets a space before it.
pub open spec fn close_text(d: Delim, empty: bool) -> Seq<char> {
    match d {
        Delim::Paren => seq![')'],
        Delim::Bracket => seq![']'],
        Delim::Brace => if empty {
            seq!['}']
        } else {
            seq![' ', '}']
        },
        Delim::Invisible => Seq::empty(),
    }
}

/// The space written before token `i`: none at the start and none after a
/// joint punctuation character.
pub open spec fn gap(s: Seq<TokenView>, i: int) -> Seq<char> {
    if i > 0 && !is_joint(s[i - 1]) {
        seq![' ']
    } else {
        Seq::empty()
    }
}

/// The source text of `s` from token `i` on.
pub open spec fn text_from(s: Seq<TokenView>, i: int) -> Seq<char>
    decreases s, s.len() - i,
{
    if 0 <= i < s.len() {
        let piece = match s[i] {
            TokenView::Group(d, body) => open_text(d) + text_from(body, 0) + close_text(d, body.len() == 0),
            TokenView::Ident(x) => x,
            TokenView::Punct(c, _) => seq![c],
            TokenView::Literal(x) => x,
        };
        gap(s, i) + piece + text_from(s, i + 1)
    } else {
        Seq::empty()
    }
}

/// The source text of a token sequence.
pub open spec fn tokens_text(s: Seq<TokenView>) -> Seq<char> {
    text_from(s, 0)
}


fn is_punct_token(t: &Token, ch: char) -> (r: bool)
    ensures
        r == is_punct(token_view(*t), ch),
{
    match t {
        Token::Punct(c, _) => *c == ch,
        _ => false,
    }
}

fn is_joint_token(t: &Token) -> (r: bool)
    ensures
        r == is_joint(token_view(*t)),
{
    match t {
        Token::Punct(_, j) => *j,
        _ => false,
    }
}

pub(crate) fn is_word(s: &String, w: &str) -> (r: bool)
    ensures
        r == (s@ == w@),
{
    let a = s.as_str();
    let n = a.unicode_len();
    if n != w.unicode_len() {
        return false;
    }
    let mut i: usize = 0;
    while i < n
        invariant
            n == a@.len(),
            n == w@.len(),
            a@ == s@,
            0 <= i <= n,
            forall|k: int| 0 <= k < i ==> a@[k] == w@[k],
        decreases n - i,
    {
        if a.get_char(i) != w.get_char(i) {
            return false;
        }
        i += 1;
    }
    assert(a@ =~= w@);
    true
}

fn is_doc_group_token(t: &Token) -> (r: bool)
    ensures
        r == is_doc_group(token_view(*t)),
{
    proof {
        reveal_strlit("doc");
    }
    match t {
        Token::Group(Delim::Bracket, body) => {
            proof {
                lemma_tokens_view(body@);
            }
            if body.len() == 0 {
                return false;
            }
            let first = match &body[0] {
                Token::Ident(x) => is_word(x, "doc"),
                _ => false,
            };
            assert(first == (tokens_view(body@)[0] == TokenView::Ident(doc_word()))) by {
                assert("doc"@ =~= doc_word());
            }
            first && !(body.len() >= 2 && is_punct_token(&body[1], ':'))
        },
        _ => false,
    }
}

fn is_negating_word(x: &String) -> (r: bool)
    ensures
        r == is_negating_keyword(x@),
{
    proof {
        reveal_strlit("if");
        reveal_strlit("while");
        reveal_strlit("match");
        reveal_strlit("return");
        reveal_strlit("break");
        reveal_strlit("in");
        reveal_strlit("yield");
        reveal_strlit("else");
        reveal_strlit("mut");
        assert("if"@ =~= seq!['i', 'f']);
        assert("while"@ =~= seq!['w', 'h', 'i', 'l', 'e']);
        assert("match"@ =~= seq!['m', 'a', 't', 'c', 'h']);
        assert("return"@ =~= seq!['r', 'e', 't', 'u', 'r', 'n']);
        assert("break"@ =~= seq!['b', 'r', 'e', 'a', 'k']);
        assert("in"@ =~= seq!['i', 'n']);
        assert("yield"@ =~= seq!['y', 'i', 'e', 'l', 'd']);
        assert("else"@ =~= seq!['e', 'l', 's', 'e']);
        assert("mut"@ =~= seq!['m', 'u', 't']);
    }
    is_word(x, "if") || is_word(x, "while") || is_word(x, "match") || is_word(x, "return")
        || is_word(x, "break") || is_word(x, "in") || is_word(x, "yield") || is_word(x, "else")
        || is_word(x, "mut")
}

fn is_macro_path_end_token(t: &Token) -> (r: bool)
    ensures
        r == is_macro_path_end(token_view(*t)),
{
    match t {
        Token::Ident(x) => !is_negating_word(x),
        _ => false,
    }
}

fn is_opaque_at(ts: &Vec<Token>, i: usize) -> (r: bool)
    requires
        i < ts@.len(),
    ensures
        r == is_opaque_group(tokens_view(ts@), i as int),
{
    proof {
        lemma_tokens_view(ts@);
    }
    let group = match &ts[i] {
        Token::Group(_, _) => true,
        _ => false,
    };
    if i < 1 || !group {
        return false;
    }
    if is_punct_token(&ts[i - 1], '#') {
        return true;
    }
    if i >= 2 && is_punct_token(&ts[i - 1], '!') && (is_punct_token(&ts[i - 2], '#')
        || is_macro_path_end_token(&ts[i - 2])) {
        return true;
    }
    let named = match &ts[i - 1] {
        Token::Ident(_) => true,
        _ => false,
    };
    i >= 3 && named && is_punct_token(&ts[i - 2], '!') && is_macro_path_end_token(&ts[i - 3])
}

fn write_open(out: &mut String, d: Delim)
    ensures
        final(out)@ == old(out)@ + open_text(d),
{
    let ghost start = out@;
    match d {
        Delim::Paren => push_char(out, '('),
        Delim::Bracket => push_char(out, '['),
        Delim::Brace => {
            push_char(out, '{');
            push_char(out, ' ');
        },
        Delim::Invisible => {},
    }
    assert(out@ =~= start + open_text(d));
}

fn write_close(out: &mut String, d: Delim, empty: bool)
    ensures
        final(out)@ == old(out)@ + close_text(d, empty),
{
    let ghost start = out@;
    match d {
        Delim::Paren => push_char(out, ')'),
        Delim::Bracket => push_char(out, ']'),
        Delim::Brace => {
            if !empty {
                push_char(out, ' ');
            }
            push_char(out, '}');
        },
        Delim::Invisible => {},
    }
    assert(out@ =~= start + close_text(d, empty));
}

/// Appends the source text of `ts` to `out`.
pub fn write_tokens(out: &mut String, ts: &Vec<Token>)
    ensures
        final(out)@ == old(out)@ + tokens_text(tokens_view(ts@)),
    decreases ts@,
{
    let ghost v = tokens_view(ts@);
    let ghost start = out@;
    proof {
        lemma_tokens_view(ts@);
    }
    let mut i: usize = 0;
    while i < ts.len()
        invariant
            0 <= i <= ts.len(),
            v == tokens_view(ts@),
            v.len() == ts@.len(),
            forall|k: int| 0 <= k < ts@.len() ==> #[trigger] v[k] == token_view(ts@[k]),
            out@ + text_from(v, i as int) == start + text_from(v, 0),
        decreases ts.len() - i,
    {
        let ghost before = out@;
        if i > 0 && !is_joint_token(&ts[i - 1]) {
            push_char(out, ' ');
        }
        assert(out@ == before + gap(v, i as int));
        let ghost mid = out@;
        match &ts[i] {
            Token::Group(d, body) => {
                write_open(out, *d);
                write_tokens(out, body);
                proof {
                    lemma_tokens_view(body@);
                }
                write_close(out, *d, body.len() == 0);
            },
            Token::Ident(x) => push_text(out, x),
            Token::Punct(c, _) => push_char(out, *c),
            Token::Literal(x) => push_text(out, x),
        }
        let ghost piece = match v[i as int] {
            TokenView::Group(d, body) => open_text(d) + text_from(body, 0) + close_text(d, body.len() == 0),
            TokenView::Ident(x) => x,
            TokenView::Punct(c, _) => seq![c],
            TokenView::Literal(x) => x,
        };
        assert(out@ =~= mid + piece);
        assert(text_from(v, i as int) == gap(v, i as int) + piece + text_from(v, i + 1));
        assert(out@ + text_from(v, i + 1) =~= before + text_from(v, i as int));
        i += 1;
    }
}

/// The source text of `ts`.
pub fn tokens_to_string(ts: &Vec<Token>) -> (r: String)
    ensures
        r@ == tokens_text(tokens_view(ts@)),
{
    let mut out = String::new();
    write_tokens(&mut out, ts);
    assert(out@ =~= tokens_text(tokens_view(ts@)));
    out
}


/// A copy of `ts`.
pub fn copy_tokens(ts: &Vec<Token>) -> (r: Vec<Token>)
    ensures
        tokens_view(r@) == tokens_view(ts@),
    decreases ts@,
{
    proof {
        lemma_tokens_view(ts@);
    }
    let mut r: Vec<Token> = Vec::new();
    let mut i: usize = 0;
    while i < ts.len()
        invariant
            0 <= i <= ts@.len(),
            r@.len() == i,
            forall|k: int| 0 <= k < i ==> token_view(#[trigger] r@[k]) == token_view(ts@[k]),
        decreases ts.len() - i,
    {
        let t = match &ts[i] {
            Token::Group(d, body) => Token::Group(*d, copy_tokens(body)),
            Token::Ident(x) => Token::Ident(x.clone()),
            Token::Punct(c, j) => Token::Punct(*c, *j),
            Token::Literal(x) => Token::Literal(x.clone()),
        };
        r.push(t);
        i += 1;
    }
    proof {
        lemma_tokens_view(r@);
    }
    assert(tokens_view(r@) =~= tokens_view(ts@));
    r
}

/// `ts` with every documentation attribute removed, at every depth outside
/// macro bodies and attribute arguments.
pub fn strip_doc_tokens(ts: &Vec<Token>) -> (r: Vec<Token>)
    ensures
        tokens_view(r@) == stripped(tokens_view(ts@)),
    decreases ts@,
{
    let ghost v = tokens_view(ts@);
    proof {
        lemma_tokens_view(ts@);
    }
    // `rev` holds what is kept of `ts[i..]`, last token first.
    let mut rev: Vec<Token> = Vec::new();
    let mut i: usize = ts.len();
    while i > 0
        invariant
            0 <= i <= ts.len(),
            v == tokens_view(ts@),
            v.len() == ts@.len(),
            forall|k: int| 0 <= k < ts@.len() ==> #[trigger] v[k] == token_view(ts@[k]),
            tokens_view(rev@) == stripped_from(v, i as int).reverse(),
        decreases i,
    {
        i -= 1;
        let ghost rest = stripped_from(v, i + 1);
        let ghost rv = tokens_view(rev@);
        proof {
            lemma_tokens_view(rev@);
            assert(rest.len() == rv.len());
        }
        let n = rev.len();
        proof {
            if n >= 1 {
                assert(rest[0] == rv[rv.len() - 1]);
            }
            if n >= 2 {
                assert(rest[1] == rv[rv.len() - 2]);
            }
        }
        let hash = is_punct_token(&ts[i], '#');
        if hash && n >= 1 && is_doc_group_token(&rev[n - 1]) {
            let ghost r0 = rev@;
            rev.pop();
            proof {
                lemma_tokens_view_pop(r0);
            }
            assert(tokens_view(rev@) =~= rest.drop_first().reverse());
        } else if hash && n >= 2 && is_punct_token(&rev[n - 1], '!') && is_doc_group_token(
            &rev[n - 2],
        ) {
            let ghost r0 = rev@;
            rev.pop();
            proof {
                lemma_tokens_view_pop(r0);
            }
            let ghost r1 = rev@;
            rev.pop();
            proof {
                lemma_tokens_view_pop(r1);
            }
            assert(tokens_view(rev@) =~= rest.subrange(2, rest.len() as int).reverse());
        } else {
            let opaque = is_opaque_at(ts, i);
            let t = match &ts[i] {
                Token::Group(d, body) => if opaque {
                    Token::Group(*d, copy_tokens(body))
                } else {
                    Token::Group(*d, strip_doc_tokens(body))
                },
                Token::Ident(x) => Token::Ident(x.clone()),
                Token::Punct(c, j) => Token::Punct(*c, *j),
                Token::Literal(x) => Token::Literal(x.clone()),
            };
            let ghost r0 = rev@;
            rev.push(t);
            proof {
                lemma_tokens_view_push(r0, t);
            }
            let ghost head = match v[i as int] {
                TokenView::Group(d, body) => if is_opaque_group(v, i as int) {
                    v[i as int]
                } else {
                    TokenView::Group(d, stripped_from(body, 0))
                },
                _ => v[i as int],
            };
            assert(token_view(t) == head);
            assert(tokens_view(rev@) =~= (seq![head] + rest).reverse());
        }
    }
    let mut out: Vec<Token> = Vec::new();
    while rev.len() > 0
        invariant
            tokens_view(out@) + tokens_view(rev@).reverse() == stripped(v),
        decreases rev.len(),
    {
        let ghost r0 = rev@;
        let ghost o0 = out@;
        let t = rev.pop().unwrap();
        proof {
            lemma_tokens_view_pop(r0);
            lemma_tokens_view(r0);
            lemma_tokens_view_push(o0, t);
        }
        out.push(t);
        assert(tokens_view(out@) + tokens_view(rev@).reverse() =~= tokens_view(o0)
            + tokens_view(r0).reverse());
    }
    assert(tokens_view(rev@).reverse() =~= Seq::<TokenView>::empty());
    assert(tokens_view(out@) =~= stripped(v));
    out
}

} // verus!
