//! The `InternedId` derive: from the tokens of the type's declaration to the
//! source text of everything generated for it, inside an anonymous `const`
//! block.
use vstd::prelude::*;

use crate::generate::{
    core_impl_text, generate_core_impl, generate_inspector_impl, generate_partial_reflect_impl,
    generate_reflect_impl, generate_reflection_meta_impls, generate_serde_impls,
    generate_standard_traits, inspector_impl_text, partial_reflect_impl_text, reflect_impl_text,
    reflection_meta_impls_text, serde_impls_text, standard_traits_text,
};
use crate::std_calls::{to_uppercase, uppercase};
use crate::syn_calls::{
    parse_derive_input_ident, parses_as_ident, syn_accepts_ident, syn_derive_input_ident,
};
use crate::tokens::{print, print_tokens, tokens_view, Tok};

verus! {

/// The optional sections of the generated code.
#[derive(Clone, Copy, PartialEq, Eq, Debug, Structural)]
pub struct Features {
    /// `serde::Serialize` and `serde::Deserialize`, and their registration as
    /// reflection type data (on by default).
    pub serde: bool,
    /// A read-only `bevy_inspector_egui` integration (off by default).
    pub dev: bool,
}

impl Default for Features {
    fn default() -> (r: Features)
        ensures
            r.serde,
            !r.dev,
    {
        Features { serde: true, dev: false }
    }
}

/// Why the derive produced no code.
#[derive(Debug, PartialEq, Eq)]
pub enum DeriveError {
    /// `syn` did not accept the input as a type declaration; its message.
    Parse(String),
    /// The interner's name made from the type's name is not an identifier.
    InvalidInternerName(String),
}

/// The name of a type's interner: its name in upper case, then `_INTERNER`.
pub open spec fn interner_name_of(name: Seq<char>) -> Seq<char> {
    uppercase(name) + "_INTERNER"@
}

/// The source text of the sections inside the `const` block, in order.
pub open spec fn derive_body_text(name: Seq<char>, interner_name: Seq<char>, features: Features) -> Seq<char> {
    core_impl_text(name, interner_name) + standard_traits_text(name) + (if features.serde {
        serde_impls_text(name)
    } else {
        seq![]
    }) + partial_reflect_impl_text(name, name) + reflect_impl_text(name)
        + reflection_meta_impls_text(name, name, features.serde) + (if features.dev {
        inspector_impl_text(name)
    } else {
        seq![]
    })
}

/// The opening of the anonymous `const` block.
pub open spec fn const_block_open() -> Seq<char> {
    "const _: () = {\n"@
}

/// The closing of the anonymous `const` block.
pub open spec fn const_block_close() -> Seq<char> {
    "};\n"@
}

/// The source text generated for a type.
pub open spec fn derive_expansion_text(
    name: Seq<char>,
    interner_name: Seq<char>,
    features: Features,
) -> Seq<char> {
    const_block_open() + derive_body_text(name, interner_name, features) + const_block_close()
}

/// The name of the interner of the type named `name`.
pub fn interner_name(name: &str) -> (r: String)
    ensures
        r@ == interner_name_of(name@),
{
    let mut upper = to_uppercase(name);
    upper.append("_INTERNER");
    upper
}

/// The source text generated for the type named `name`, whose interner is
/// named `interner_name`.
pub fn expand_derive(name: &str, interner_name: &str, features: Features) -> (r: String)
    ensures
        r@ == derive_expansion_text(name@, interner_name@, features),
{
    let mut out = String::from_str("const _: () = {\n");
    let ghost start = out@;
    let core = generate_core_impl(name, interner_name);
    out.append(core.as_str());
    let standard = generate_standard_traits(name);
    out.append(standard.as_str());
    let ghost after_standard = out@;
    if features.serde {
        let serde = generate_serde_impls(name);
        out.append(serde.as_str());
    } else {
        assert(out@ =~= after_standard + seq![]);
    }
    let partial = generate_partial_reflect_impl(name, name);
    out.append(partial.as_str());
    let reflect = generate_reflect_impl(name);
    out.append(reflect.as_str());
    let meta = generate_reflection_meta_impls(name, name, features.serde);
    out.append(meta.as_str());
    let ghost after_meta = out@;
    if features.dev {
        let inspector = generate_inspector_impl(name);
        out.append(inspector.as_str());
    } else {
        assert(out@ =~= after_meta + seq![]);
    }
    out.append("};\n");
    assert(out@ =~= derive_expansion_text(name@, interner_name@, features));
    out
}

/// Derives `InternedId` for the type declared by `input`: the source text of
/// the generated code, or why there is none.
///
/// `syn` reads the declaration from its source text, in which invisible
/// delimiters print as nothing: a declaration whose meaning depends on an
/// invisible group (a `macro_rules!` fragment such as `$t:ty` standing for
/// `dyn A + B` after `&'static`) is read without that group.
pub fn derive_interned_id(input: &Vec<Tok>, features: Features) -> (r: Result<String, DeriveError>)
    ensures
        match syn_derive_input_ident(print(tokens_view(input@))) {
            Err(msg) => r matches Err(DeriveError::Parse(m)) && m@ == msg,
            Ok(name) => if syn_accepts_ident(interner_name_of(name)) {
                r matches Ok(text) && text@ == derive_expansion_text(
                    name,
                    interner_name_of(name),
                    features,
                )
            } else {
                r matches Err(DeriveError::InvalidInternerName(i)) && i@ == interner_name_of(name)
            },
        },
{
    let text = print_tokens(input);
    let name = match parse_derive_input_ident(text.as_str()) {
        Ok(name) => name,
        Err(msg) => {
            return Err(DeriveError::Parse(msg));
        },
    };
    let interner = interner_name(name.as_str());
    if !parses_as_ident(interner.as_str()) {
        return Err(DeriveError::InvalidInternerName(interner));
    }
    Ok(expand_derive(name.as_str(), interner.as_str(), features))
}

} // verus!
