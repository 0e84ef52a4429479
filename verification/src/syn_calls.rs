//! Trusted wrappers around the parsers of `syn` that the library calls, each
//! on source text, and the names given to what they return.
//!
//! Each of them parses the whole text it is handed with `syn::parse_str` and
//! reports whether `syn` accepted it (or, for a derive input, the identifier
//! of the item it parsed).  What `syn` accepts is `syn`'s grammar of Rust: it
//! is not restated here.  Parsing is a function of the text alone, so its
//! outcome is given a name.
//!
//! `syn::parse_str` lexes with the compiler's lexer when it runs inside a
//! procedural macro and with `proc_macro2`'s own lexer elsewhere (in tests,
//! for instance).  The two can disagree on some texts, such as a reserved
//! prefix (`z"x"`) under edition 2021.  The texts handed to these wrappers are
//! printed from tokens with a space after every identifier and literal, and
//! with no two punctuation characters glued into a comment, so on them the two
//! lexers agree; the names stand for the outcome on such texts.
use vstd::prelude::*;

verus! {

/// Whether `syn` parses the whole text as the contents of an attribute (a
/// `syn::Meta`: a path, a path and a delimited group, or `path = value`).
pub uninterp spec fn syn_accepts_meta(text: Seq<char>) -> bool;

/// Whether `syn` parses the whole text as a visibility (a `syn::Visibility`).
pub uninterp spec fn syn_accepts_visibility(text: Seq<char>) -> bool;

/// Whether `syn` parses the whole text as one identifier that is not a
/// keyword (a `syn::Ident`).
pub uninterp spec fn syn_accepts_ident(text: Seq<char>) -> bool;

/// What `syn` makes of the text as the input of a derive macro (a
/// `syn::DeriveInput`): the text of the item's identifier, or the message of
/// the error that `syn` reports.
pub uninterp spec fn syn_derive_input_ident(text: Seq<char>) -> Result<Seq<char>, Seq<char>>;

/// `syn::parse_str::<syn::Meta>`: claims only that the result is the named
/// outcome [`syn_accepts_meta`] of the text it was handed.
#[verifier::external_body]
pub(crate) fn parses_as_meta(text: &str) -> (r: bool)
    ensures
        r == syn_accepts_meta(text@),
{
    syn::parse_str::<syn::Meta>(text).is_ok()
}

/// `syn::parse_str::<syn::Visibility>`: claims only that the result is the
/// named outcome [`syn_accepts_visibility`] of the text it was handed.
#[verifier::external_body]
pub(crate) fn parses_as_visibility(text: &str) -> (r: bool)
    ensures
        r == syn_accepts_visibility(text@),
{
    syn::parse_str::<syn::Visibility>(text).is_ok()
}

/// `syn::parse_str::<syn::Ident>`: claims only that the result is the named
/// outcome [`syn_accepts_ident`] of the text it was handed.
#[verifier::external_body]
pub(crate) fn parses_as_ident(text: &str) -> (r: bool)
    ensures
        r == syn_accepts_ident(text@),
{
    syn::parse_str::<syn::Ident>(text).is_ok()
}

/// `syn::parse_str::<syn::DeriveInput>`, keeping the text of the parsed
/// item's identifier (`Ident::to_string`) or the error's message
/// (`Error::to_string`): claims only that this is the named outcome
/// [`syn_derive_input_ident`] of the text it was handed.
#[verifier::external_body]
pub(crate) fn parse_derive_input_ident(text: &str) -> (r: Result<String, String>)
    ensures
        match r {
            Ok(name) => syn_derive_input_ident(text@) == Ok::<Seq<char>, Seq<char>>(name@),
            Err(msg) => syn_derive_input_ident(text@) == Err::<Seq<char>, Seq<char>>(msg@),
        },
{
    match syn::parse_str::<syn::DeriveInput>(text) {
        Ok(input) => Ok(input.ident.to_string()),
        Err(e) => Err(e.to_string()),
    }
}

} // verus!
