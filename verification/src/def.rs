//! The input of `interned_id!`: optional outer attributes, an optional
//! visibility, the type's name and an optional trailing `;`.
//!
//! The grammar is read on the token sequence with invisible delimiters left
//! out.  Where a piece has to be checked against Rust's grammar (the contents
//! of an attribute, a restricted visibility, an identifier), its source text
//! is handed to `syn`.  These outcomes are gathered first, for every position
//! where such a piece can start ([`syn_outcomes_of`]); the grammar then
//! decides with them as arguments ([`InternedIdDef::decide`]).
use vstd::prelude::*;

use crate::syn_calls::{
    parses_as_ident, parses_as_meta, parses_as_visibility, syn_accepts_ident, syn_accepts_meta,
    syn_accepts_visibility,
};
use crate::tokens::{
    append_copies, find_group_end, group_end, lemma_scan_close_bounds, print, print_range,
    strip_invisible, tokens_view, visible, is_punct_view, Delimiter, Tok, TokenView,
};

verus! {

/// Why the input of `interned_id!` was refused.
#[derive(Clone, Copy, PartialEq, Eq, Debug, Structural)]
pub enum ParseError {
    /// A `#` that is not followed by `[ ... ]`.
    ExpectedBracket,
    /// The contents of `#[ ... ]` are not an attribute.
    InvalidAttribute,
    /// `pub ( ... )` whose group is not a visibility restriction.
    InvalidVisibility,
    /// No identifier (or a keyword) where the type's name belongs.
    ExpectedIdent,
    /// Tokens after the name and the optional `;`.
    UnexpectedToken,
    /// A group that is opened and never closed.
    UnclosedGroup,
}

/// The visibility given to the declared type.
#[derive(Debug, PartialEq, Eq)]
pub enum Visibility {
    /// No visibility: private to the module.
    Inherited,
    /// `pub`
    Public,
    /// `pub ( ... )`, holding the tokens inside the parentheses.
    Restricted(Vec<Tok>),
}

/// The mathematical value of a [`Visibility`].
pub enum VisibilityView {
    Inherited,
    Public,
    Restricted(Seq<TokenView>),
}

impl View for Visibility {
    type V = VisibilityView;

    open spec fn view(&self) -> VisibilityView {
        match self {
            Visibility::Inherited => VisibilityView::Inherited,
            Visibility::Public => VisibilityView::Public,
            Visibility::Restricted(v) => VisibilityView::Restricted(tokens_view(v@)),
        }
    }
}

/// A parsed `interned_id!` invocation.
#[derive(Debug, PartialEq, Eq)]
pub struct InternedIdDef {
    /// The outer attributes, each with its `#` and brackets.
    pub attrs: Vec<Vec<Tok>>,
    /// The visibility.
    pub vis: Visibility,
    /// The type's name, as written.
    pub name: String,
}

/// The mathematical value of an [`InternedIdDef`].
pub struct DefView {
    pub attrs: Seq<Seq<TokenView>>,
    pub vis: VisibilityView,
    pub name: Seq<char>,
}

/// The view of each token sequence of a sequence.
pub open spec fn nested_view(v: Seq<Vec<Tok>>) -> Seq<Seq<TokenView>> {
    Seq::new(v.len(), |i: int| tokens_view(v[i]@))
}

impl View for InternedIdDef {
    type V = DefView;

    open spec fn view(&self) -> DefView {
        DefView { attrs: nested_view(self.attrs@), vis: self.vis@, name: self.name@ }
    }
}

/// What `syn` said of each piece that can start at each position of a token
/// sequence: `meta[k]` of the contents of `#[ ... ]` at `k`, `visibility[k]`
/// of `pub ( ... )` at `k`, `ident[k]` of the identifier at `k`.
#[derive(Debug, PartialEq, Eq)]
pub struct SynOutcomes {
    pub meta: Vec<bool>,
    pub visibility: Vec<bool>,
    pub ident: Vec<bool>,
}

/// The mathematical value of [`SynOutcomes`].
pub struct SynOutcomesView {
    pub meta: Seq<bool>,
    pub visibility: Seq<bool>,
    pub ident: Seq<bool>,
}

impl View for SynOutcomes {
    type V = SynOutcomesView;

    open spec fn view(&self) -> SynOutcomesView {
        SynOutcomesView { meta: self.meta@, visibility: self.visibility@, ident: self.ident@ }
    }
}

/// The outcome recorded for position `k`; `false` where none is.
pub open spec fn outcome_at(v: Seq<bool>, k: int) -> bool {
    0 <= k < v.len() && v[k]
}

/// The index of the `]` of an attribute `#[ ... ]` that starts at `k`.
pub open spec fn attribute_end(s: Seq<TokenView>, k: int) -> Option<int> {
    if 0 <= k && k + 1 < s.len() && is_punct_view(s[k], '#') && s[k + 1] == TokenView::Open(
        Delimiter::Bracket,
    ) {
        group_end(s, k + 1)
    } else {
        None
    }
}

/// The index of the `)` of a restricted visibility `pub ( ... )` that starts
/// at `k`.
pub open spec fn restriction_end(s: Seq<TokenView>, k: int) -> Option<int> {
    if 0 <= k && k + 1 < s.len() && s[k] == TokenView::Ident("pub"@) && s[k + 1]
        == TokenView::Open(Delimiter::Parenthesis) {
        group_end(s, k + 1)
    } else {
        None
    }
}

/// Whether `syn` accepts the contents of the attribute at `k` as an attribute.
pub open spec fn meta_outcome(s: Seq<TokenView>, k: int) -> bool {
    match attribute_end(s, k) {
        Some(j) => syn_accepts_meta(print(s.subrange(k + 2, j))),
        None => false,
    }
}

/// Whether `syn` accepts the restricted visibility at `k`.
pub open spec fn visibility_outcome(s: Seq<TokenView>, k: int) -> bool {
    match restriction_end(s, k) {
        Some(j) => syn_accepts_visibility(print(s.subrange(k, j + 1))),
        None => false,
    }
}

/// Whether `syn` accepts the token at `k` as an identifier.
pub open spec fn ident_outcome(s: Seq<TokenView>, k: int) -> bool {
    0 <= k < s.len() && match s[k] {
        TokenView::Ident(n) => syn_accepts_ident(n),
        _ => false,
    }
}

/// What `syn` says of every piece of `s`.
pub open spec fn syn_outcomes(s: Seq<TokenView>) -> SynOutcomesView {
    SynOutcomesView {
        meta: Seq::new(s.len(), |k: int| meta_outcome(s, k)),
        visibility: Seq::new(s.len(), |k: int| visibility_outcome(s, k)),
        ident: Seq::new(s.len(), |k: int| ident_outcome(s, k)),
    }
}

/// The outer attributes from index `k` on: each `#` must be followed by a
/// bracketed group whose contents are accepted as an attribute.  Gives the
/// attributes and the index after the last of them.
pub open spec fn parse_attrs_with(s: Seq<TokenView>, k: int, o: SynOutcomesView) -> Result<
    (Seq<Seq<TokenView>>, int),
    ParseError,
>
    decreases s.len() - k,
{
    if 0 <= k < s.len() && is_punct_view(s[k], '#') {
        if k + 1 < s.len() && s[k + 1] == TokenView::Open(Delimiter::Bracket) {
            match group_end(s, k + 1) {
                None => Err(ParseError::UnclosedGroup),
                Some(j) => {
                    proof {
                        lemma_scan_close_bounds(s, k + 2, 1);
                    }
                    if !outcome_at(o.meta, k) {
                        Err(ParseError::InvalidAttribute)
                    } else {
                        match parse_attrs_with(s, j + 1, o) {
                            Ok((rest, e)) => Ok((seq![s.subrange(k, j + 1)] + rest, e)),
                            Err(err) => Err(err),
                        }
                    }
                },
            }
        } else {
            Err(ParseError::ExpectedBracket)
        }
    } else {
        Ok((seq![], k))
    }
}

/// The visibility at index `k`: `pub`, `pub` followed by a parenthesized
/// restriction that is accepted, or nothing.  Gives it and the index after it.
pub open spec fn parse_vis_with(s: Seq<TokenView>, k: int, o: SynOutcomesView) -> Result<
    (VisibilityView, int),
    ParseError,
> {
    if 0 <= k < s.len() && s[k] == TokenView::Ident("pub"@) {
        if k + 1 < s.len() && s[k + 1] == TokenView::Open(Delimiter::Parenthesis) {
            match group_end(s, k + 1) {
                None => Err(ParseError::UnclosedGroup),
                Some(j) => if outcome_at(o.visibility, k) {
                    Ok((VisibilityView::Restricted(s.subrange(k + 2, j)), j + 1))
                } else {
                    Err(ParseError::InvalidVisibility)
                },
            }
        } else {
            Ok((VisibilityView::Public, k + 1))
        }
    } else {
        Ok((VisibilityView::Inherited, k))
    }
}

/// The name at index `k`: an identifier that is accepted (no keyword).
pub open spec fn parse_name_with(s: Seq<TokenView>, k: int, o: SynOutcomesView) -> Result<
    Seq<char>,
    ParseError,
> {
    if 0 <= k < s.len() {
        match s[k] {
            TokenView::Ident(n) => if outcome_at(o.ident, k) {
                Ok(n)
            } else {
                Err(ParseError::ExpectedIdent)
            },
            _ => Err(ParseError::ExpectedIdent),
        }
    } else {
        Err(ParseError::ExpectedIdent)
    }
}

/// The index after an optional `;` at index `k`.
pub open spec fn skip_semicolon(s: Seq<TokenView>, k: int) -> int {
    if 0 <= k < s.len() && is_punct_view(s[k], ';') {
        k + 1
    } else {
        k
    }
}

/// The whole grammar on a sequence without invisible delimiters, given what
/// `syn` said of its pieces: attributes, visibility, name, an optional `;`,
/// and nothing after.
pub open spec fn parse_def_with(s: Seq<TokenView>, o: SynOutcomesView) -> Result<DefView, ParseError> {
    match parse_attrs_with(s, 0, o) {
        Err(e) => Err(e),
        Ok((attrs, a)) => match parse_vis_with(s, a, o) {
            Err(e) => Err(e),
            Ok((vis, b)) => match parse_name_with(s, b, o) {
                Err(e) => Err(e),
                Ok(name) => if skip_semicolon(s, b + 1) == s.len() {
                    Ok(DefView { attrs, vis, name })
                } else {
                    Err(ParseError::UnexpectedToken)
                },
            },
        },
    }
}

/// The whole grammar on a sequence without invisible delimiters.
pub open spec fn parse_def(s: Seq<TokenView>) -> Result<DefView, ParseError> {
    parse_def_with(s, syn_outcomes(s))
}

/// What `interned_id!` makes of its input tokens.
pub open spec fn parse_input(input: Seq<TokenView>) -> Result<DefView, ParseError> {
    parse_def(visible(input))
}

/// Prepends `acc` to the attributes of a result of [`parse_attrs_with`].
pub open spec fn prepend_attrs(
    acc: Seq<Seq<TokenView>>,
    r: Result<(Seq<Seq<TokenView>>, int), ParseError>,
) -> Result<(Seq<Seq<TokenView>>, int), ParseError> {
    match r {
        Ok((rest, e)) => Ok((acc + rest, e)),
        Err(err) => Err(err),
    }
}

proof fn lemma_prepend_step(
    acc: Seq<Seq<TokenView>>,
    a: Seq<TokenView>,
    r: Result<(Seq<Seq<TokenView>>, int), ParseError>,
)
    ensures
        prepend_attrs(acc, prepend_attrs(seq![a], r)) == prepend_attrs(acc.push(a), r),
{
    if let Ok((rest, e)) = r {
        assert(acc + (seq![a] + rest) =~= acc.push(a) + rest);
    }
}

/// Whether the string is `pub`.
fn is_pub_keyword(s: &String) -> (r: bool)
    ensures
        r == (s@ == "pub"@),
{
    let kw = String::from_str("pub");
    *s == kw
}

/// The outcome recorded for position `k`.
fn outcome(v: &Vec<bool>, k: usize) -> (r: bool)
    ensures
        r == outcome_at(v@, k as int),
{
    k < v.len() && v[k]
}

/// The index of the `]` of an attribute that starts at `k`.
fn attribute_end_at(s: &Vec<Tok>, k: usize) -> (r: Option<usize>)
    ensures
        match r {
            Some(j) => attribute_end(tokens_view(s@), k as int) == Some(j as int),
            None => attribute_end(tokens_view(s@), k as int) is None,
        },
{
    let ghost sv = tokens_view(s@);
    if k < s.len() && k + 1 < s.len() && s[k].is_punct('#') && match &s[k + 1] {
        Tok::Open(Delimiter::Bracket) => true,
        _ => false,
    } {
        assert(sv[k as int] == s@[k as int]@);
        assert(sv[k + 1] == s@[k + 1]@);
        find_group_end(s, k + 1)
    } else {
        proof {
            if k < s.len() && k + 1 < s.len() {
                assert(sv[k as int] == s@[k as int]@);
                assert(sv[k + 1] == s@[k + 1]@);
            }
        }
        None
    }
}

/// The index of the `)` of a restricted visibility that starts at `k`.
fn restriction_end_at(s: &Vec<Tok>, k: usize) -> (r: Option<usize>)
    ensures
        match r {
            Some(j) => restriction_end(tokens_view(s@), k as int) == Some(j as int),
            None => restriction_end(tokens_view(s@), k as int) is None,
        },
{
    let ghost sv = tokens_view(s@);
    if k < s.len() && k + 1 < s.len() && match &s[k] {
        Tok::Ident(word) => is_pub_keyword(word),
        _ => false,
    } && match &s[k + 1] {
        Tok::Open(Delimiter::Parenthesis) => true,
        _ => false,
    } {
        assert(sv[k as int] == s@[k as int]@);
        assert(sv[k + 1] == s@[k + 1]@);
        find_group_end(s, k + 1)
    } else {
        proof {
            if k < s.len() && k + 1 < s.len() {
                assert(sv[k as int] == s@[k as int]@);
                assert(sv[k + 1] == s@[k + 1]@);
            }
        }
        None
    }
}

/// Asks `syn` about every piece of `s` that the grammar may need: the
/// contents of each `#[ ... ]`, each `pub ( ... )` and each identifier.
pub fn syn_outcomes_of(s: &Vec<Tok>) -> (o: SynOutcomes)
    ensures
        o@ == syn_outcomes(tokens_view(s@)),
{
    let ghost sv = tokens_view(s@);
    let mut meta: Vec<bool> = Vec::new();
    let mut visibility: Vec<bool> = Vec::new();
    let mut ident: Vec<bool> = Vec::new();
    for k in 0..s.len()
        invariant
            sv == tokens_view(s@),
            meta@ =~= syn_outcomes(sv).meta.take(k as int),
            visibility@ =~= syn_outcomes(sv).visibility.take(k as int),
            ident@ =~= syn_outcomes(sv).ident.take(k as int),
    {
        let m = match attribute_end_at(s, k) {
            Some(j) => {
                proof {
                    lemma_scan_close_bounds(sv, k + 2, 1);
                }
                let text = print_range(s, k + 2, j);
                parses_as_meta(text.as_str())
            },
            None => false,
        };
        let v = match restriction_end_at(s, k) {
            Some(j) => {
                proof {
                    lemma_scan_close_bounds(sv, k + 2, 1);
                }
                let text = print_range(s, k, j + 1);
                parses_as_visibility(text.as_str())
            },
            None => false,
        };
        assert(sv[k as int] == s@[k as int]@);
        let i = match &s[k] {
            Tok::Ident(n) => parses_as_ident(n.as_str()),
            _ => false,
        };
        meta.push(m);
        visibility.push(v);
        ident.push(i);
    }
    let ghost all = syn_outcomes(sv);
    assert(all.meta.take(s.len() as int) =~= all.meta);
    assert(all.visibility.take(s.len() as int) =~= all.visibility);
    assert(all.ident.take(s.len() as int) =~= all.ident);
    SynOutcomes { meta, visibility, ident }
}

/// The outer attributes at the start of `s`, and the index after them.
fn parse_attributes(s: &Vec<Tok>, o: &SynOutcomes) -> (r: Result<(Vec<Vec<Tok>>, usize), ParseError>)
    ensures
        match r {
            Ok((attrs, k)) => parse_attrs_with(tokens_view(s@), 0, o@) == Ok::<
                (Seq<Seq<TokenView>>, int),
                ParseError,
            >((nested_view(attrs@), k as int)) && k <= s.len(),
            Err(e) => parse_attrs_with(tokens_view(s@), 0, o@) == Err::<
                (Seq<Seq<TokenView>>, int),
                ParseError,
            >(e),
        },
{
    let ghost sv = tokens_view(s@);
    let mut attrs: Vec<Vec<Tok>> = Vec::new();
    let mut k: usize = 0;
    while k < s.len() && s[k].is_punct('#')
        invariant
            k <= s.len(),
            sv == tokens_view(s@),
            parse_attrs_with(sv, 0, o@) == prepend_attrs(
                nested_view(attrs@),
                parse_attrs_with(sv, k as int, o@),
            ),
        decreases s.len() - k,
    {
        assert(sv[k as int] == s@[k as int]@);
        let is_bracket = k + 1 < s.len() && match &s[k + 1] {
            Tok::Open(Delimiter::Bracket) => true,
            _ => false,
        };
        if !is_bracket {
            proof {
                if k + 1 < s.len() {
                    assert(sv[k + 1] == s@[k + 1]@);
                }
            }
            return Err(ParseError::ExpectedBracket);
        }
        assert(sv[k + 1] == s@[k + 1]@);
        match find_group_end(s, k + 1) {
            None => {
                return Err(ParseError::UnclosedGroup);
            },
            Some(j) => {
                proof {
                    lemma_scan_close_bounds(sv, k + 2, 1);
                }
                if !outcome(&o.meta, k) {
                    return Err(ParseError::InvalidAttribute);
                }
                let mut attr: Vec<Tok> = Vec::new();
                append_copies(&mut attr, s, k, j + 1);
                let ghost a = tokens_view(attr@);
                assert(a =~= sv.subrange(k as int, j + 1));
                proof {
                    lemma_prepend_step(nested_view(attrs@), a, parse_attrs_with(sv, j + 1, o@));
                }
                let ghost before = attrs@;
                attrs.push(attr);
                assert(nested_view(attrs@) =~= nested_view(before).push(a)) by {
                    assert(attrs@ == before.push(attr));
                }
                k = j + 1;
            },
        }
    }
    proof {
        if k < s.len() {
            assert(sv[k as int] == s@[k as int]@);
        }
        assert(nested_view(attrs@) + seq![] =~= nested_view(attrs@));
    }
    Ok((attrs, k))
}

/// The visibility at index `k` of `s`, and the index after it.
fn parse_visibility(s: &Vec<Tok>, k: usize, o: &SynOutcomes) -> (r: Result<(Visibility, usize), ParseError>)
    requires
        k <= s.len(),
    ensures
        match r {
            Ok((vis, e)) => parse_vis_with(tokens_view(s@), k as int, o@) == Ok::<
                (VisibilityView, int),
                ParseError,
            >((vis@, e as int)),
            Err(err) => parse_vis_with(tokens_view(s@), k as int, o@) == Err::<
                (VisibilityView, int),
                ParseError,
            >(err),
        },
{
    let ghost sv = tokens_view(s@);
    let is_pub = k < s.len() && match &s[k] {
        Tok::Ident(word) => is_pub_keyword(word),
        _ => false,
    };
    proof {
        if k < s.len() {
            assert(sv[k as int] == s@[k as int]@);
        }
    }
    if !is_pub {
        return Ok((Visibility::Inherited, k));
    }
    let is_paren = k + 1 < s.len() && match &s[k + 1] {
        Tok::Open(Delimiter::Parenthesis) => true,
        _ => false,
    };
    proof {
        if k + 1 < s.len() {
            assert(sv[k + 1] == s@[k + 1]@);
        }
    }
    if !is_paren {
        return Ok((Visibility::Public, k + 1));
    }
    match find_group_end(s, k + 1) {
        None => Err(ParseError::UnclosedGroup),
        Some(j) => {
            proof {
                lemma_scan_close_bounds(sv, k + 2, 1);
            }
            if !outcome(&o.visibility, k) {
                return Err(ParseError::InvalidVisibility);
            }
            let mut inner: Vec<Tok> = Vec::new();
            append_copies(&mut inner, s, k + 2, j);
            assert(tokens_view(inner@) =~= sv.subrange(k + 2, j as int));
            Ok((Visibility::Restricted(inner), j + 1))
        },
    }
}

/// The name at index `k` of `s`.
fn parse_name_at(s: &Vec<Tok>, k: usize, o: &SynOutcomes) -> (r: Result<String, ParseError>)
    ensures
        match r {
            Ok(n) => parse_name_with(tokens_view(s@), k as int, o@) == Ok::<Seq<char>, ParseError>(
                n@,
            ) && k < s.len(),
            Err(err) => parse_name_with(tokens_view(s@), k as int, o@) == Err::<
                Seq<char>,
                ParseError,
            >(err),
        },
{
    if k >= s.len() {
        return Err(ParseError::ExpectedIdent);
    }
    assert(tokens_view(s@)[k as int] == s@[k as int]@);
    match &s[k] {
        Tok::Ident(n) => {
            if outcome(&o.ident, k) {
                Ok(n.clone())
            } else {
                Err(ParseError::ExpectedIdent)
            }
        },
        _ => Err(ParseError::ExpectedIdent),
    }
}

impl InternedIdDef {
    /// Reads `tokens` (without invisible delimiters) as the input of
    /// `interned_id!`, given what `syn` said of its pieces.
    pub fn decide(tokens: &Vec<Tok>, outcomes: &SynOutcomes) -> (r: Result<InternedIdDef, ParseError>)
        ensures
            match r {
                Ok(def) => parse_def_with(tokens_view(tokens@), outcomes@) == Ok::<
                    DefView,
                    ParseError,
                >(def@),
                Err(e) => parse_def_with(tokens_view(tokens@), outcomes@) == Err::<
                    DefView,
                    ParseError,
                >(e),
            },
    {
        let s = tokens;
        let ghost sv = tokens_view(s@);
        let (attrs, a) = parse_attributes(s, outcomes)?;
        let (vis, b) = parse_visibility(s, a, outcomes)?;
        let name = parse_name_at(s, b, outcomes)?;
        let mut k = b + 1;
        if k < s.len() && s[k].is_punct(';') {
            assert(sv[k as int] == s@[k as int]@);
            k = k + 1;
        } else {
            proof {
                if k < s.len() {
                    assert(sv[k as int] == s@[k as int]@);
                }
            }
        }
        if k != s.len() {
            return Err(ParseError::UnexpectedToken);
        }
        Ok(InternedIdDef { attrs, vis, name })
    }

    /// Parses the input of `interned_id!`.
    pub fn parse(input: &Vec<Tok>) -> (r: Result<InternedIdDef, ParseError>)
        ensures
            match r {
                Ok(def) => parse_input(tokens_view(input@)) == Ok::<DefView, ParseError>(def@),
                Err(e) => parse_input(tokens_view(input@)) == Err::<DefView, ParseError>(e),
            },
    {
        let s = strip_invisible(input);
        let outcomes = syn_outcomes_of(&s);
        InternedIdDef::decide(&s, &outcomes)
    }
}

} // verus!
