use bevy_interned_id::def::{syn_outcomes_of, InternedIdDef, ParseError, SynOutcomes, Visibility};
use bevy_interned_id::expand::interned_id;
use bevy_interned_id::tokens::{Delimiter, Spacing, Tok};
use proc_macro2::{TokenStream, TokenTree};

fn push_stream(ts: TokenStream, out: &mut Vec<Tok>) {
    for tt in ts {
        match tt {
            TokenTree::Group(g) => {
                let d = match g.delimiter() {
                    proc_macro2::Delimiter::Parenthesis => Delimiter::Parenthesis,
                    proc_macro2::Delimiter::Brace => Delimiter::Brace,
                    proc_macro2::Delimiter::Bracket => Delimiter::Bracket,
                    proc_macro2::Delimiter::None => Delimiter::Invisible,
                };
                out.push(Tok::Open(d));
                push_stream(g.stream(), out);
                out.push(Tok::Close(d));
            }
            TokenTree::Ident(i) => out.push(Tok::Ident(i.to_string())),
            TokenTree::Punct(p) => out.push(Tok::Punct(
                p.as_char(),
                match p.spacing() {
                    proc_macro2::Spacing::Joint => Spacing::Joint,
                    proc_macro2::Spacing::Alone => Spacing::Alone,
                },
            )),
            TokenTree::Literal(l) => out.push(Tok::Literal(l.to_string())),
        }
    }
}

fn flat(src: &str) -> Vec<Tok> {
    let ts: TokenStream = src.parse().unwrap();
    let mut out = Vec::new();
    push_stream(ts, &mut out);
    out
}

fn norm(src: &str) -> String {
    src.parse::<TokenStream>().unwrap().to_string()
}

fn expand(src: &str) -> Result<String, ParseError> {
    interned_id(&flat(src))
}

#[test]
fn public_id_expands_to_the_derive_form() {
    let out = expand("pub SpellId").unwrap();
    assert_eq!(
        norm(&out),
        norm("#[derive(bevy_interned_id::InternedId, Clone, Copy, PartialEq, Eq, Hash, Debug)] pub struct SpellId(bevy::ecs::intern::Interned<str>);")
    );
}

#[test]
fn private_id_has_no_visibility() {
    let out = expand("EnemyId").unwrap();
    assert_eq!(
        norm(&out),
        norm("#[derive(bevy_interned_id::InternedId, Clone, Copy, PartialEq, Eq, Hash, Debug)] struct EnemyId(bevy::ecs::intern::Interned<str>);")
    );
}

#[test]
fn attributes_are_forwarded_before_the_derive() {
    let out = expand("#[derive(Component)] pub ItemId").unwrap();
    assert_eq!(
        norm(&out),
        norm("#[derive(Component)] #[derive(bevy_interned_id::InternedId, Clone, Copy, PartialEq, Eq, Hash, Debug)] pub struct ItemId(bevy::ecs::intern::Interned<str>);")
    );
    let tokens = InternedIdDef::parse(&flat("#[derive(Component)] #[doc = \"x\"] pub ItemId"))
        .unwrap()
        .expand();
    let input = flat("#[derive(Component)] #[doc = \"x\"]");
    assert_eq!(&tokens[..input.len()], &input[..]);
}

#[test]
fn trailing_semicolon_is_tolerated() {
    assert_eq!(expand("pub Foo;"), expand("pub Foo"));
    assert_eq!(expand("#[allow(dead_code)] Foo ;"), expand("#[allow(dead_code)] Foo"));
    assert!(expand("pub Foo;").is_ok());
}

#[test]
fn restricted_visibilities_are_kept() {
    let out = expand("pub(crate) Foo").unwrap();
    assert_eq!(
        norm(&out),
        norm("#[derive(bevy_interned_id::InternedId, Clone, Copy, PartialEq, Eq, Hash, Debug)] pub(crate) struct Foo(bevy::ecs::intern::Interned<str>);")
    );
    let def = InternedIdDef::parse(&flat("pub(in crate::a) Foo")).unwrap();
    assert_eq!(def.vis, Visibility::Restricted(flat("in crate::a")));
    assert_eq!(def.name, "Foo");
    let def = InternedIdDef::parse(&flat("pub(super) Foo")).unwrap();
    assert_eq!(def.vis, Visibility::Restricted(flat("super")));
}

#[test]
fn parsed_fields() {
    let def = InternedIdDef::parse(&flat("#[a] #[b(c)] pub Foo")).unwrap();
    assert_eq!(def.attrs, vec![flat("#[a]"), flat("#[b(c)]")]);
    assert_eq!(def.vis, Visibility::Public);
    assert_eq!(def.name, "Foo");
    let def = InternedIdDef::parse(&flat("Bar")).unwrap();
    assert!(def.attrs.is_empty());
    assert_eq!(def.vis, Visibility::Inherited);
}

#[test]
fn invisible_groups_are_transparent() {
    let mut input = vec![
        Tok::Open(Delimiter::Invisible),
        Tok::Ident("pub".to_string()),
        Tok::Close(Delimiter::Invisible),
    ];
    input.push(Tok::Ident("Foo".to_string()));
    assert_eq!(interned_id(&input), expand("pub Foo"));
    let empty_vis = vec![
        Tok::Open(Delimiter::Invisible),
        Tok::Close(Delimiter::Invisible),
        Tok::Ident("Foo".to_string()),
    ];
    assert_eq!(interned_id(&empty_vis), expand("Foo"));
}

#[test]
fn errors_for_each_kind_of_bad_input() {
    assert_eq!(expand("# pub Foo"), Err(ParseError::ExpectedBracket));
    assert_eq!(expand("#![allow(x)] Foo"), Err(ParseError::ExpectedBracket));
    assert_eq!(expand("#[] Foo"), Err(ParseError::InvalidAttribute));
    assert_eq!(expand("#[1] Foo"), Err(ParseError::InvalidAttribute));
    assert_eq!(expand("pub(crate x) Foo"), Err(ParseError::InvalidVisibility));
    assert_eq!(expand("pub(Foo)"), Err(ParseError::InvalidVisibility));
    assert_eq!(expand(""), Err(ParseError::ExpectedIdent));
    assert_eq!(expand("pub"), Err(ParseError::ExpectedIdent));
    assert_eq!(expand("pub struct"), Err(ParseError::ExpectedIdent));
    assert_eq!(expand("pub _"), Err(ParseError::ExpectedIdent));
    assert_eq!(expand("pub 1"), Err(ParseError::ExpectedIdent));
    assert_eq!(expand("Foo Bar"), Err(ParseError::UnexpectedToken));
    assert_eq!(expand("Foo;;"), Err(ParseError::UnexpectedToken));
    let unclosed = vec![
        Tok::Punct('#', Spacing::Alone),
        Tok::Open(Delimiter::Bracket),
        Tok::Ident("a".to_string()),
    ];
    assert_eq!(interned_id(&unclosed), Err(ParseError::UnclosedGroup));
}

#[test]
fn raw_identifier_names_are_accepted() {
    let def = InternedIdDef::parse(&flat("pub r#Type")).unwrap();
    assert_eq!(def.name, "r#Type");
}

#[test]
fn the_grammar_decides_on_the_outcomes_it_is_given() {
    let s = flat("#[a] pub(crate) Foo");
    let outcomes = syn_outcomes_of(&s);
    // `#` at 0, `pub` at 4, `crate` at 6, `Foo` at 8.
    assert_eq!(outcomes.meta[0], true);
    assert_eq!(outcomes.visibility[4], true);
    assert_eq!(outcomes.ident[8], true);
    assert_eq!(outcomes.ident[6], false);
    let accepted = InternedIdDef::decide(&s, &outcomes).unwrap();
    assert_eq!(accepted.name, "Foo");
    let refuse = |meta: bool, vis: bool, ident: bool| SynOutcomes {
        meta: (0..s.len()).map(|k| if k == 0 { meta } else { outcomes.meta[k] }).collect(),
        visibility: (0..s.len()).map(|k| if k == 4 { vis } else { outcomes.visibility[k] }).collect(),
        ident: (0..s.len()).map(|k| if k == 8 { ident } else { outcomes.ident[k] }).collect(),
    };
    assert_eq!(InternedIdDef::decide(&s, &refuse(false, true, true)), Err(ParseError::InvalidAttribute));
    assert_eq!(InternedIdDef::decide(&s, &refuse(true, false, true)), Err(ParseError::InvalidVisibility));
    assert_eq!(InternedIdDef::decide(&s, &refuse(true, true, false)), Err(ParseError::ExpectedIdent));
    let none = SynOutcomes { meta: vec![], visibility: vec![], ident: vec![] };
    assert_eq!(InternedIdDef::decide(&flat("Foo"), &none), Err(ParseError::ExpectedIdent));
}

#[test]
fn a_second_semicolon_is_refused() {
    assert_eq!(expand("pub Foo;;"), Err(ParseError::UnexpectedToken));
    assert_eq!(expand("#[a] Foo ; ;"), Err(ParseError::UnexpectedToken));
}
