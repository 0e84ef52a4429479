//! Properties of the two macros that hold for every input.
use vstd::prelude::*;

use crate::def::{
    attribute_end, meta_outcome, outcome_at, parse_attrs_with, parse_def,
    parse_def_with, parse_input, parse_name_with, parse_vis_with, restriction_end, skip_semicolon,
    syn_outcomes, visibility_outcome, ident_outcome, ParseError, SynOutcomesView, VisibilityView,
};
use crate::derive::{
    const_block_close, const_block_open, derive_body_text, derive_expansion_text, Features,
};
use crate::expand::{derive_attribute, expansion, flatten, struct_tokens, vis_tokens};
use crate::generate::{
    core_impl_text, inspector_impl_text, partial_reflect_impl_text, reflect_impl_text,
    reflection_meta_start_text, registration_end_text, serde_impls_text, serde_type_data_text,
    standard_traits_text,
};
use crate::tokens::{
    group_end, is_invisible_delimiter, is_punct_view, lemma_scan_close_bounds, lemma_scan_close_extend, visible,
    Delimiter, Spacing, TokenView,
};

verus! {

proof fn lemma_flatten_prepend(a: Seq<TokenView>, rest: Seq<Seq<TokenView>>)
    ensures
        flatten(seq![a] + rest) == a + flatten(rest),
    decreases rest.len(),
{
    if rest.len() == 0 {
        let x = seq![a] + rest;
        assert(x =~= seq![a]);
        assert(x.drop_last() =~= Seq::<Seq<TokenView>>::empty());
        assert(flatten(x.drop_last()) == Seq::<TokenView>::empty());
        assert(flatten(x) == flatten(x.drop_last()) + x.last());
        assert(Seq::<TokenView>::empty() + a =~= a);
        assert(flatten(rest) == Seq::<TokenView>::empty());
        assert(a + Seq::<TokenView>::empty() =~= a);
    } else {
        lemma_flatten_prepend(a, rest.drop_last());
        let x = seq![a] + rest;
        assert(x.drop_last() =~= seq![a] + rest.drop_last());
        assert(x.last() == rest.last());
        assert(flatten(x) == flatten(x.drop_last()) + x.last());
        assert(a + flatten(rest.drop_last()) + rest.last() =~= a + (flatten(rest.drop_last())
            + rest.last()));
    }
}

/// The attributes that `parse_attrs_with` finds are the tokens between where
/// it starts and where it stops, in order and unchanged.
proof fn lemma_parse_attrs_slice(s: Seq<TokenView>, k: int, o: SynOutcomesView)
    requires
        0 <= k <= s.len(),
        parse_attrs_with(s, k, o) is Ok,
    ensures
        k <= parse_attrs_with(s, k, o)->Ok_0.1 <= s.len(),
        flatten(parse_attrs_with(s, k, o)->Ok_0.0) == s.subrange(
            k,
            parse_attrs_with(s, k, o)->Ok_0.1,
        ),
    decreases s.len() - k,
{
    if k < s.len() && is_punct_view(s[k], '#') {
        let j = group_end(s, k + 1)->Some_0;
        lemma_scan_close_bounds(s, k + 2, 1);
        lemma_parse_attrs_slice(s, j + 1, o);
        let (rest, e) = parse_attrs_with(s, j + 1, o)->Ok_0;
        lemma_flatten_prepend(s.subrange(k, j + 1), rest);
        assert(s.subrange(k, j + 1) + s.subrange(j + 1, e) =~= s.subrange(k, e));
    } else {
        assert(s.subrange(k, k) =~= Seq::<TokenView>::empty());
    }
}

/// Attributes are forwarded: the expansion of an accepted `interned_id!`
/// invocation begins with the attributes written before its visibility,
/// token for token and in the same order, and these are exactly the tokens
/// the invocation begins with.
pub proof fn law_attributes_forwarded(input: Seq<TokenView>)
    requires
        parse_input(input) is Ok,
    ensures
        ({
            let def = parse_input(input)->Ok_0;
            let n = flatten(def.attrs).len() as int;
            &&& n <= visible(input).len()
            &&& flatten(def.attrs) == visible(input).subrange(0, n)
            &&& expansion(def).subrange(0, n) == flatten(def.attrs)
            &&& expansion(def).subrange(n, n + derive_attribute().len()) == derive_attribute()
        }),
{
    let s = visible(input);
    let def = parse_input(input)->Ok_0;
    lemma_parse_attrs_slice(s, 0, syn_outcomes(s));
    let n = flatten(def.attrs).len() as int;
    let e = expansion(def);
    assert(e.subrange(0, n) =~= flatten(def.attrs));
    assert(e.subrange(n, n + derive_attribute().len()) =~= derive_attribute());
}

/// Whether every group that opens in `s` and closes in it is closed by a
/// delimiter of its own kind, as in every token stream the compiler hands to
/// a macro.
pub open spec fn delimiters_match(s: Seq<TokenView>) -> bool {
    forall|k: int|
        #![trigger group_end(s, k)]
        0 <= k < s.len() && s[k] is Open && group_end(s, k) is Some ==> s[group_end(
            s,
            k,
        )->Some_0] == TokenView::Close(s[k]->Open_0)
}

/// The visibility is kept: in the expansion of an accepted `interned_id!`
/// invocation, the tokens between the added derive attribute and `struct`
/// are exactly the tokens the invocation has between its attributes and its
/// name (after which only an optional `;` may follow): none for a private
/// type, `pub`, or `pub`, `(`, the tokens inside the parentheses and `)`.
/// `struct` is followed by that name.
pub proof fn law_visibility_kept(input: Seq<TokenView>)
    requires
        parse_input(input) is Ok,
        delimiters_match(visible(input)),
    ensures
        ({
            let s = visible(input);
            let def = parse_input(input)->Ok_0;
            let n = flatten(def.attrs).len() as int;
            let b = if is_punct_view(s.last(), ';') {
                s.len() - 2
            } else {
                s.len() - 1
            };
            let e = expansion(def);
            let v = n + derive_attribute().len();
            &&& 0 <= n <= b < s.len()
            &&& s[b] == TokenView::Ident(def.name)
            &&& e.subrange(v, v + (b - n)) == s.subrange(n, b)
            &&& e[v + (b - n)] == TokenView::Ident("struct"@)
            &&& e[v + (b - n) + 1] == s[b]
            &&& b - n == 1 ==> s[n] == TokenView::Ident("pub"@)
            &&& b - n >= 2 ==> s[n] == TokenView::Ident("pub"@) && s[n + 1] == TokenView::Open(
                Delimiter::Parenthesis,
            ) && s[b - 1] == TokenView::Close(Delimiter::Parenthesis)
        }),
{
    let s = visible(input);
    let def = parse_input(input)->Ok_0;
    let o = syn_outcomes(s);
    lemma_parse_attrs_slice(s, 0, o);
    let a = parse_attrs_with(s, 0, o)->Ok_0.1;
    let vb = parse_vis_with(s, a, o)->Ok_0;
    let bb = vb.1;
    let n = flatten(def.attrs).len() as int;
    assert(n == a);
    assert(s[bb] == TokenView::Ident(def.name));
    if bb + 1 < s.len() {
        assert(s.last() == s[bb + 1]);
    }
    let vt = vis_tokens(def.vis);
    match vb.0 {
        VisibilityView::Inherited => {
            assert(vt =~= s.subrange(a, bb));
        },
        VisibilityView::Public => {
            assert(vt =~= s.subrange(a, bb));
        },
        VisibilityView::Restricted(inner) => {
            let j = group_end(s, a + 1)->Some_0;
            lemma_scan_close_bounds(s, a + 2, 1);
            assert(s[j] == TokenView::Close(Delimiter::Parenthesis));
            assert(vt =~= s.subrange(a, bb));
        },
    }
    let e = expansion(def);
    let v = n + derive_attribute().len();
    assert(e.subrange(v, v + vt.len()) =~= vt);
    assert(e[v + vt.len()] == struct_tokens(def.name)[0]);
    assert(e[v + vt.len() + 1] == struct_tokens(def.name)[1]);
}

/// A sequence that a token is appended to keeps the visible tokens it had,
/// and gains the token unless it is an invisible delimiter.
proof fn lemma_visible_push(s: Seq<TokenView>, t: TokenView)
    requires
        !is_invisible_delimiter(t),
    ensures
        visible(s.push(t)) == visible(s).push(t),
{
    assert(s.push(t).drop_last() =~= s);
}

/// `parse_attrs_with` reads nothing after where it stops, unless it stopped
/// at the end and what follows starts with `#`.
proof fn lemma_parse_attrs_extend(s: Seq<TokenView>, t: Seq<TokenView>, k: int)
    requires
        0 <= k <= s.len(),
        parse_attrs_with(s, k, syn_outcomes(s)) is Ok,
        t.len() > 0,
        !is_punct_view(t[0], '#'),
    ensures
        parse_attrs_with(s + t, k, syn_outcomes(s + t)) == parse_attrs_with(
            s,
            k,
            syn_outcomes(s),
        ),
    decreases s.len() - k,
{
    let st = s + t;
    if k < s.len() {
        assert(st[k] == s[k]);
        if is_punct_view(s[k], '#') {
            assert(st[k + 1] == s[k + 1]);
            lemma_scan_close_extend(s, t, k + 2, 1);
            let j = group_end(s, k + 1)->Some_0;
            lemma_scan_close_bounds(s, k + 2, 1);
            assert(st.subrange(k + 2, j) =~= s.subrange(k + 2, j));
            assert(st.subrange(k, j + 1) =~= s.subrange(k, j + 1));
            assert(attribute_end(st, k) == attribute_end(s, k));
            assert(meta_outcome(st, k) == meta_outcome(s, k));
            assert(outcome_at(syn_outcomes(st).meta, k) == outcome_at(syn_outcomes(s).meta, k));
            lemma_parse_attrs_extend(s, t, j + 1);
        }
    } else {
        assert(st[k] == t[0]);
    }
}

/// Appending tokens that do not start with `#` to an accepted sequence leaves
/// its attributes, visibility and name as they were, and the name is not its
/// last-but-none token: everything up to the name lies within it.
proof fn lemma_accepted_prefix(s: Seq<TokenView>, t: Seq<TokenView>)
    requires
        parse_def(s) is Ok,
        t.len() > 0,
        !is_punct_view(t[0], '#'),
    ensures
        ({
            let st = s + t;
            let o = syn_outcomes(s);
            let ot = syn_outcomes(st);
            let a = parse_attrs_with(s, 0, o)->Ok_0.1;
            let b = parse_vis_with(s, a, o)->Ok_0.1;
            &&& parse_attrs_with(st, 0, ot) == parse_attrs_with(s, 0, o)
            &&& parse_vis_with(st, a, ot) == parse_vis_with(s, a, o)
            &&& parse_name_with(st, b, ot) == parse_name_with(s, b, o)
            &&& 0 <= b < s.len()
            &&& skip_semicolon(s, b + 1) == s.len()
        }),
{
    let st = s + t;
    let o = syn_outcomes(s);
    let ot = syn_outcomes(st);
    lemma_parse_attrs_extend(s, t, 0);
    lemma_parse_attrs_slice(s, 0, o);
    let a = parse_attrs_with(s, 0, o)->Ok_0.1;
    let b = parse_vis_with(s, a, o)->Ok_0.1;
    assert(b < s.len());
    assert(st[a] == s[a]);
    if s[a] == TokenView::Ident("pub"@) {
        assert(a + 1 < s.len());
        assert(st[a + 1] == s[a + 1]);
        if s[a + 1] == TokenView::Open(crate::tokens::Delimiter::Parenthesis) {
            lemma_scan_close_extend(s, t, a + 2, 1);
            let j = group_end(s, a + 1)->Some_0;
            lemma_scan_close_bounds(s, a + 2, 1);
            assert(st.subrange(a, j + 1) =~= s.subrange(a, j + 1));
            assert(st.subrange(a + 2, j) =~= s.subrange(a + 2, j));
            assert(restriction_end(st, a) == restriction_end(s, a));
            assert(visibility_outcome(st, a) == visibility_outcome(s, a));
        }
    }
    assert(parse_vis_with(st, a, ot) == parse_vis_with(s, a, o));
    assert(st[b] == s[b]);
    assert(ident_outcome(st, b) == ident_outcome(s, b));
    assert(parse_name_with(st, b, ot) == parse_name_with(s, b, o));
}

/// The trailing `;` is optional: an accepted invocation that does not end in
/// `;` is accepted, with the same result, when a `;` is appended to it.
pub proof fn law_trailing_semicolon_optional(input: Seq<TokenView>, spacing: Spacing)
    requires
        parse_input(input) is Ok,
        !(visible(input).len() > 0 && is_punct_view(visible(input).last(), ';')),
    ensures
        parse_input(input.push(TokenView::Punct(';', spacing))) == parse_input(input),
{
    let semi = TokenView::Punct(';', spacing);
    let s = visible(input);
    let t = seq![semi];
    let st = s + t;
    lemma_visible_push(input, semi);
    assert(visible(input.push(semi)) =~= st);
    lemma_accepted_prefix(s, t);
    let o = syn_outcomes(s);
    let b = parse_vis_with(s, parse_attrs_with(s, 0, o)->Ok_0.1, o)->Ok_0.1;
    if b + 1 < s.len() {
        assert(s[b + 1] == s.last());
    }
    assert(b + 1 == s.len());
    assert(st[b + 1] == semi);
    assert(skip_semicolon(st, b + 1) == st.len());
}

/// Only one `;` is optional: an accepted invocation that does not end in `;`
/// is refused, at the second one, when two `;` are appended to it.
pub proof fn law_second_semicolon_refused(input: Seq<TokenView>, first: Spacing, second: Spacing)
    requires
        parse_input(input) is Ok,
        !(visible(input).len() > 0 && is_punct_view(visible(input).last(), ';')),
    ensures
        parse_input(input.push(TokenView::Punct(';', first)).push(TokenView::Punct(';', second)))
            == Err::<crate::def::DefView, ParseError>(ParseError::UnexpectedToken),
{
    let s1 = TokenView::Punct(';', first);
    let s2 = TokenView::Punct(';', second);
    let s = visible(input);
    let t = seq![s1, s2];
    let st = s + t;
    lemma_visible_push(input, s1);
    lemma_visible_push(input.push(s1), s2);
    assert(visible(input.push(s1).push(s2)) =~= st);
    lemma_accepted_prefix(s, t);
    let o = syn_outcomes(s);
    let b = parse_vis_with(s, parse_attrs_with(s, 0, o)->Ok_0.1, o)->Ok_0.1;
    if b + 1 < s.len() {
        assert(s[b + 1] == s.last());
    }
    assert(b + 1 == s.len());
    assert(st[b + 1] == s1);
    assert(skip_semicolon(st, b + 1) == b + 2);
    assert(st.len() == b + 3);
}

proof fn lemma_visible_idempotent(s: Seq<TokenView>)
    ensures
        visible(visible(s)) == visible(s),
        forall|i: int| 0 <= i < visible(s).len() ==> !is_invisible_delimiter(#[trigger] visible(s)[i]),
    decreases s.len(),
{
    if s.len() > 0 {
        lemma_visible_idempotent(s.drop_last());
        let v = visible(s.drop_last());
        if !is_invisible_delimiter(s.last()) {
            assert(v.push(s.last()).drop_last() =~= v);
            assert forall|i: int| 0 <= i < visible(s).len() implies !is_invisible_delimiter(
                #[trigger] visible(s)[i],
            ) by {
                if i < v.len() {
                    assert(visible(s)[i] == v[i]);
                }
            }
        }
    }
}

/// Invisible delimiters (those a `macro_rules!` fragment such as `$v:vis` is
/// wrapped in) make no difference: an invocation is read as the same tokens
/// without them.
pub proof fn law_invisible_delimiters_transparent(input: Seq<TokenView>)
    ensures
        parse_input(input) == parse_input(visible(input)),
{
    lemma_visible_idempotent(input);
}

/// The derive's code is a single anonymous `const` block: the interner static
/// and every generated impl stand inside `const _: () = { ... };`.
pub proof fn law_derive_output_is_anonymous_const(
    name: Seq<char>,
    interner_name: Seq<char>,
    features: Features,
)
    ensures
        ({
            let text = derive_expansion_text(name, interner_name, features);
            let open = const_block_open();
            let close = const_block_close();
            &&& text.len() >= open.len() + close.len()
            &&& text.subrange(0, open.len() as int) == open
            &&& text.subrange(text.len() - close.len(), text.len() as int) == close
            &&& text.subrange(open.len() as int, text.len() - close.len()) == derive_body_text(
                name,
                interner_name,
                features,
            )
        }),
{
    let text = derive_expansion_text(name, interner_name, features);
    let open = const_block_open();
    let close = const_block_close();
    let body = derive_body_text(name, interner_name, features);
    assert(text =~= open + body + close);
    assert(text.subrange(0, open.len() as int) =~= open);
    assert(text.subrange(text.len() - close.len(), text.len() as int) =~= close);
    assert(text.subrange(open.len() as int, text.len() - close.len()) =~= body);
}

proof fn lemma_two_insertions(
    head: Seq<char>,
    x: Seq<char>,
    mid: Seq<char>,
    y: Seq<char>,
    tail: Seq<char>,
)
    ensures
        ({
            let off = head + mid + tail;
            exists|k1: int, k2: int|
                0 <= k1 <= k2 <= off.len() && head + x + mid + y + tail == off.subrange(0, k1) + x
                    + off.subrange(k1, k2) + y + off.subrange(k2, off.len() as int)
        }),
{
    let off = head + mid + tail;
    let k1 = head.len() as int;
    let k2 = k1 + mid.len();
    assert(off.subrange(0, k1) =~= head);
    assert(off.subrange(k1, k2) =~= mid);
    assert(off.subrange(k2, off.len() as int) =~= tail);
    assert(0 <= k1 <= k2 <= off.len() && head + x + mid + y + tail == off.subrange(0, k1) + x
        + off.subrange(k1, k2) + y + off.subrange(k2, off.len() as int));
}

/// The `serde` feature adds the `serde` impls right after the standard traits
/// and the serde type data in the type's registration, and changes nothing
/// else; the `dev` feature adds the inspector impl at the end and changes
/// nothing else.
pub proof fn law_features_add_only_their_sections(
    name: Seq<char>,
    interner_name: Seq<char>,
    dev: bool,
    serde: bool,
)
    ensures
        ({
            let on = derive_body_text(name, interner_name, Features { serde: true, dev });
            let off = derive_body_text(name, interner_name, Features { serde: false, dev });
            exists|k1: int, k2: int|
                0 <= k1 <= k2 <= off.len() && on == off.subrange(0, k1) + serde_impls_text(name)
                    + off.subrange(k1, k2) + serde_type_data_text() + off.subrange(
                    k2,
                    off.len() as int,
                )
        }),
        derive_body_text(name, interner_name, Features { serde, dev: true }) == derive_body_text(
            name,
            interner_name,
            Features { serde, dev: false },
        ) + inspector_impl_text(name),
{
    let on = derive_body_text(name, interner_name, Features { serde: true, dev });
    let off = derive_body_text(name, interner_name, Features { serde: false, dev });
    let head = core_impl_text(name, interner_name) + standard_traits_text(name);
    let mid = partial_reflect_impl_text(name, name) + reflect_impl_text(name)
        + reflection_meta_start_text(name, name);
    let tail = registration_end_text() + (if dev {
        inspector_impl_text(name)
    } else {
        seq![]
    });
    assert(off =~= head + mid + tail);
    assert(on =~= head + serde_impls_text(name) + mid + serde_type_data_text() + tail);
    lemma_two_insertions(head, serde_impls_text(name), mid, serde_type_data_text(), tail);
    assert(derive_body_text(name, interner_name, Features { serde, dev: true })
        =~= derive_body_text(name, interner_name, Features { serde, dev: false })
        + inspector_impl_text(name));
}

} // verus!
