use bevy_interned_id::tokens::{
    append_copies, find_group_end, print_range, print_tokens, strip_invisible,
    Delimiter, Spacing, Tok,
};

fn id(s: &str) -> Tok {
    Tok::Ident(s.to_string())
}

#[test]
fn joint_punctuation_is_printed_without_a_gap() {
    let v = vec![
        id("a"),
        Tok::Punct(':', Spacing::Joint),
        Tok::Punct(':', Spacing::Alone),
        id("b"),
        Tok::Open(Delimiter::Parenthesis),
        Tok::Literal("1".to_string()),
        Tok::Close(Delimiter::Parenthesis),
    ];
    assert_eq!(print_tokens(&v), "a :: b ( 1 )");
    assert_eq!(print_range(&v, 1, 4), ":: b");
    assert_eq!(print_range(&v, 2, 2), "");
}

#[test]
fn invisible_delimiters_print_as_nothing() {
    let v = vec![Tok::Open(Delimiter::Invisible), id("pub"), Tok::Close(Delimiter::Invisible)];
    assert_eq!(print_tokens(&v), " pub ");
    assert_eq!(strip_invisible(&v), vec![id("pub")]);
}

#[test]
fn group_end_skips_nested_groups() {
    let v = vec![
        Tok::Open(Delimiter::Bracket),
        Tok::Open(Delimiter::Parenthesis),
        Tok::Close(Delimiter::Parenthesis),
        id("x"),
        Tok::Close(Delimiter::Bracket),
        id("y"),
    ];
    assert_eq!(find_group_end(&v, 0), Some(4));
    assert_eq!(find_group_end(&v, 1), Some(2));
    let unclosed: Vec<Tok> = v[..4].iter().map(|t| t.duplicate()).collect();
    assert_eq!(find_group_end(&unclosed, 0), None);
}

#[test]
fn copies_are_equal() {
    let v = vec![id("a"), Tok::Punct('#', Spacing::Alone), Tok::Literal("\"s\"".to_string())];
    let mut dst = vec![id("z")];
    append_copies(&mut dst, &v, 1, 3);
    assert_eq!(dst, vec![id("z"), v[1].duplicate(), v[2].duplicate()]);
    assert!(Tok::Punct(';', Spacing::Joint).is_punct(';'));
    assert!(Tok::Punct(';', Spacing::Joint).is_joint());
    assert!(!id(";").is_punct(';'));
    assert_eq!(v[2].duplicate(), v[2]);
}

#[test]
fn joint_slash_before_slash_or_star_keeps_a_gap() {
    let v = vec![
        Tok::Punct('/', Spacing::Joint),
        Tok::Punct('/', Spacing::Alone),
        Tok::Punct('/', Spacing::Joint),
        Tok::Punct('*', Spacing::Alone),
        Tok::Punct('/', Spacing::Joint),
        Tok::Punct('=', Spacing::Alone),
    ];
    assert_eq!(print_tokens(&v), "/ / / * /=");
    assert!("/ / / * /=".parse::<proc_macro2::TokenStream>().is_ok());
}
