//! What `interned_id!` expands to: the invocation's attributes, the derive of
//! `InternedId` and the five traits it needs, the invocation's visibility, and
//! a tuple struct around `bevy::ecs::intern::Interned<str>`.
use vstd::prelude::*;

use crate::def::{parse_input, DefView, InternedIdDef, ParseError, Visibility, VisibilityView};
use crate::tokens::{
    append_copies, print, print_tokens, tokens_view, Delimiter, Spacing, Tok, TokenView,
};

verus! {

/// An identifier token.
pub open spec fn id(s: Seq<char>) -> TokenView {
    TokenView::Ident(s)
}

/// A punctuation token that stands alone.
pub open spec fn alone(c: char) -> TokenView {
    TokenView::Punct(c, Spacing::Alone)
}

/// The path separator `::`.
pub open spec fn path_sep() -> Seq<TokenView> {
    seq![TokenView::Punct(':', Spacing::Joint), alone(':')]
}

/// `#[derive(bevy_interned_id::InternedId, Clone, Copy, PartialEq, Eq, Hash, Debug)]`
pub open spec fn derive_attribute() -> Seq<TokenView> {
    seq![alone('#'), TokenView::Open(Delimiter::Bracket), id("derive"@),
        TokenView::Open(Delimiter::Parenthesis), id("bevy_interned_id"@)] + path_sep() + seq![
        id("InternedId"@),
        alone(','),
        id("Clone"@),
        alone(','),
        id("Copy"@),
        alone(','),
        id("PartialEq"@),
        alone(','),
        id("Eq"@),
        alone(','),
        id("Hash"@),
        alone(','),
        id("Debug"@),
        TokenView::Close(Delimiter::Parenthesis),
        TokenView::Close(Delimiter::Bracket),
    ]
}

/// The tokens of a visibility.
pub open spec fn vis_tokens(vis: VisibilityView) -> Seq<TokenView> {
    match vis {
        VisibilityView::Inherited => seq![],
        VisibilityView::Public => seq![id("pub"@)],
        VisibilityView::Restricted(inner) => seq![
            id("pub"@),
            TokenView::Open(Delimiter::Parenthesis),
        ] + inner + seq![TokenView::Close(Delimiter::Parenthesis)],
    }
}

/// `struct Name(bevy::ecs::intern::Interned<str>);`
pub open spec fn struct_tokens(name: Seq<char>) -> Seq<TokenView> {
    seq![id("struct"@), id(name), TokenView::Open(Delimiter::Parenthesis), id("bevy"@)]
        + path_sep() + seq![id("ecs"@)] + path_sep() + seq![id("intern"@)] + path_sep() + seq![
        id("Interned"@),
        alone('<'),
        id("str"@),
        alone('>'),
        TokenView::Close(Delimiter::Parenthesis),
        alone(';'),
    ]
}

/// The tokens of several attributes, one after the other.
pub open spec fn flatten(attrs: Seq<Seq<TokenView>>) -> Seq<TokenView>
    decreases attrs.len(),
{
    if attrs.len() == 0 {
        seq![]
    } else {
        flatten(attrs.drop_last()) + attrs.last()
    }
}

/// What an `interned_id!` invocation expands to.
pub open spec fn expansion(def: DefView) -> Seq<TokenView> {
    flatten(def.attrs) + derive_attribute() + vis_tokens(def.vis) + struct_tokens(def.name)
}

fn push_ident(v: &mut Vec<Tok>, s: &str)
    ensures
        tokens_view(final(v)@) == tokens_view(old(v)@).push(TokenView::Ident(s@)),
{
    let ghost before = v@;
    v.push(Tok::Ident(String::from_str(s)));
    assert(tokens_view(v@) =~= tokens_view(before).push(TokenView::Ident(s@)));
}

fn push_tok(v: &mut Vec<Tok>, t: Tok)
    ensures
        tokens_view(final(v)@) == tokens_view(old(v)@).push(t@),
{
    let ghost before = v@;
    let ghost tv = t@;
    v.push(t);
    assert(tokens_view(v@) =~= tokens_view(before).push(tv));
}

fn push_path_sep(v: &mut Vec<Tok>)
    ensures
        tokens_view(final(v)@) == tokens_view(old(v)@) + path_sep(),
{
    let ghost before = tokens_view(v@);
    push_tok(v, Tok::Punct(':', Spacing::Joint));
    push_tok(v, Tok::Punct(':', Spacing::Alone));
    assert(tokens_view(v@) =~= before + path_sep());
}

fn push_derive_attribute(v: &mut Vec<Tok>)
    ensures
        tokens_view(final(v)@) == tokens_view(old(v)@) + derive_attribute(),
{
    let ghost before = tokens_view(v@);
    push_tok(v, Tok::Punct('#', Spacing::Alone));
    push_tok(v, Tok::Open(Delimiter::Bracket));
    push_ident(v, "derive");
    push_tok(v, Tok::Open(Delimiter::Parenthesis));
    push_ident(v, "bevy_interned_id");
    push_path_sep(v);
    let ghost mid = tokens_view(v@);
    push_ident(v, "InternedId");
    push_tok(v, Tok::Punct(',', Spacing::Alone));
    push_ident(v, "Clone");
    push_tok(v, Tok::Punct(',', Spacing::Alone));
    push_ident(v, "Copy");
    push_tok(v, Tok::Punct(',', Spacing::Alone));
    push_ident(v, "PartialEq");
    push_tok(v, Tok::Punct(',', Spacing::Alone));
    push_ident(v, "Eq");
    push_tok(v, Tok::Punct(',', Spacing::Alone));
    push_ident(v, "Hash");
    push_tok(v, Tok::Punct(',', Spacing::Alone));
    push_ident(v, "Debug");
    push_tok(v, Tok::Close(Delimiter::Parenthesis));
    push_tok(v, Tok::Close(Delimiter::Bracket));
    assert(tokens_view(v@) =~= before + derive_attribute());
}

fn push_vis(v: &mut Vec<Tok>, vis: &Visibility)
    ensures
        tokens_view(final(v)@) == tokens_view(old(v)@) + vis_tokens(vis@),
{
    let ghost before = tokens_view(v@);
    match vis {
        Visibility::Inherited => {
            assert(tokens_view(v@) =~= before + vis_tokens(vis@));
        },
        Visibility::Public => {
            push_ident(v, "pub");
            assert(tokens_view(v@) =~= before + vis_tokens(vis@));
        },
        Visibility::Restricted(inner) => {
            push_ident(v, "pub");
            push_tok(v, Tok::Open(Delimiter::Parenthesis));
            append_copies(v, inner, 0, inner.len());
            assert(tokens_view(inner@).subrange(0, inner.len() as int) =~= tokens_view(inner@));
            push_tok(v, Tok::Close(Delimiter::Parenthesis));
            assert(tokens_view(v@) =~= before + vis_tokens(vis@));
        },
    }
}

fn push_struct(v: &mut Vec<Tok>, name: &String)
    ensures
        tokens_view(final(v)@) == tokens_view(old(v)@) + struct_tokens(name@),
{
    let ghost before = tokens_view(v@);
    push_ident(v, "struct");
    push_tok(v, Tok::Ident(name.clone()));
    push_tok(v, Tok::Open(Delimiter::Parenthesis));
    push_ident(v, "bevy");
    push_path_sep(v);
    push_ident(v, "ecs");
    push_path_sep(v);
    push_ident(v, "intern");
    push_path_sep(v);
    push_ident(v, "Interned");
    push_tok(v, Tok::Punct('<', Spacing::Alone));
    push_ident(v, "str");
    push_tok(v, Tok::Punct('>', Spacing::Alone));
    push_tok(v, Tok::Close(Delimiter::Parenthesis));
    push_tok(v, Tok::Punct(';', Spacing::Alone));
    assert(tokens_view(v@) =~= before + struct_tokens(name@));
}

impl InternedIdDef {
    /// The tokens this invocation expands to.
    pub fn expand(&self) -> (r: Vec<Tok>)
        ensures
            tokens_view(r@) == expansion(self@),
    {
        let mut out: Vec<Tok> = Vec::new();
        let mut i: usize = 0;
        while i < self.attrs.len()
            invariant
                i <= self.attrs.len(),
                tokens_view(out@) == flatten(self@.attrs.take(i as int)),
            decreases self.attrs.len() - i,
        {
            let a = &self.attrs[i];
            append_copies(&mut out, a, 0, a.len());
            assert(tokens_view(a@).subrange(0, a.len() as int) =~= tokens_view(a@));
            assert(self@.attrs.take(i + 1).drop_last() =~= self@.attrs.take(i as int));
            assert(self@.attrs[i as int] == tokens_view(a@));
            i = i + 1;
        }
        assert(self@.attrs.take(i as int) =~= self@.attrs);
        push_derive_attribute(&mut out);
        push_vis(&mut out, &self.vis);
        push_struct(&mut out, &self.name);
        out
    }
}

/// Expands an `interned_id!` invocation: the source text of the struct it
/// declares, or why its input was refused.
///
/// The forwarded attributes are part of that text, in which invisible
/// delimiters print as nothing.
pub fn interned_id(input: &Vec<Tok>) -> (r: Result<String, ParseError>)
    ensures
        match r {
            Ok(text) => parse_input(tokens_view(input@)) is Ok && text@ == print(
                expansion(parse_input(tokens_view(input@))->Ok_0),
            ),
            Err(e) => parse_input(tokens_view(input@)) == Err::<DefView, ParseError>(e),
        },
{
    let def = InternedIdDef::parse(input)?;
    let tokens = def.expand();
    Ok(print_tokens(&tokens))
}

} // verus!
