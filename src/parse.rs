//! Reading source text into the library's model, through syn.
use vstd::prelude::*;
use proc_macro2::{Delimiter, Spacing, TokenStream, TokenTree};
use quote::ToTokens;
use crate::flatten::Probe;
use crate::source::{ModuleDecl, SourceItem, SourceUnit, Visibility};
use crate::token::{Delim, Token};

verus! {

/// syn's syntax tree of one item, carried through the conversion below.
#[verifier::external_type_specification]
#[verifier::external_body]
pub struct ExItem(syn::Item);

/// proc_macro2's token stream, carried through the conversion below.
#[verifier::external_type_specification]
#[verifier::external_body]
pub struct ExTokenStream(TokenStream);

/// What syn makes of the text of a whole source file, if it is valid.
pub uninterp spec fn parsed_source(text: Seq<char>) -> Option<SourceUnit>;

/// Parses the text of a source file: its shebang line, its inner attributes
/// and its items, each item that is not a module kept as its tokens.
/// Relies on `syn::parse_file`, whose result depends on the text alone; on
/// failure the error is syn's message.
#[verifier::external_body]
fn parse_source(text: &str) -> (r: Result<SourceUnit, String>)
    ensures
        match r {
            Ok(u) => parsed_source(text@) == Some(u),
            Err(_) => parsed_source(text@) == None::<SourceUnit>,
        },
{
    match syn::parse_file(text) {
        Ok(file) => Ok(SourceUnit {
            shebang: file.shebang,
            attrs: file.attrs.iter().map(|a| tokens_of(a.to_token_stream())).collect(),
            items: file.items.into_iter().map(item_of).collect(),
        }),
        Err(e) => Err(e.to_string()),
    }
}

/// What a file holding `text` is to the expansion: parsed, or unparsable
/// with the parser's message.
pub fn probe_text(text: &str) -> (r: Probe)
    ensures
        match r {
            Probe::Parsed(u) => parsed_source(text@) == Some(u),
            Probe::Unparsable(_) => parsed_source(text@) == None::<SourceUnit>,
            _ => false,
        },
{
    match parse_source(text) {
        Ok(u) => Probe::Parsed(u),
        Err(message) => Probe::Unparsable(message),
    }
}

/// Moves one `syn::Item` into the library's model: a module keeps its
/// attributes, visibility, name and inline items; any other item its tokens
/// (`quote::ToTokens`).
#[verifier::external_body]
fn item_of(item: syn::Item) -> SourceItem {
    match item {
        syn::Item::Mod(m) => SourceItem::Module(ModuleDecl {
            attrs: m.attrs.iter().map(|a| tokens_of(a.to_token_stream())).collect(),
            vis: match m.vis {
                syn::Visibility::Inherited => Visibility::Private,
                syn::Visibility::Public(_) => Visibility::Public,
                syn::Visibility::Restricted(_) => Visibility::Restricted,
            },
            name: m.ident.to_string(),
            body: m.content.map(|(_, items)| items.into_iter().map(item_of).collect()),
        }),
        other => SourceItem::Other(tokens_of(other.to_token_stream())),
    }
}

/// Moves a `proc_macro2::TokenStream` into the library's tokens, one for one.
#[verifier::external_body]
fn tokens_of(ts: TokenStream) -> Vec<Token> {
    ts.into_iter().map(|tt| match tt {
        TokenTree::Group(g) => Token::Group(
            match g.delimiter() {
                Delimiter::Parenthesis => Delim::Paren,
                Delimiter::Bracket => Delim::Bracket,
                Delimiter::Brace => Delim::Brace,
                Delimiter::None => Delim::Invisible,
            },
            tokens_of(g.stream()),
        ),
        TokenTree::Ident(i) => Token::Ident(i.to_string()),
        TokenTree::Punct(p) => Token::Punct(p.as_char(), p.spacing() == Spacing::Joint),
        TokenTree::Literal(l) => Token::Literal(l.to_string()),
    }).collect()
}

} // verus!
