use bevy_interned_id::derive::{
    derive_interned_id, expand_derive, interner_name, DeriveError, Features,
};
use bevy_interned_id::generate::{
    generate_core_impl, generate_inspector_impl, generate_partial_reflect_impl,
    generate_reflect_impl, generate_reflection_meta_impls, generate_serde_impls,
    generate_standard_traits,
};
use bevy_interned_id::tokens::{Delimiter, Spacing, Tok};
use proc_macro2::{TokenStream, TokenTree};

fn push_stream(ts: TokenStream, out: &mut Vec<Tok>) {
    for tt in ts {
        match tt {
            TokenTree::Group(g) => {
                let d = match g.delimiter() {
                    proc_macro2::Delimiter::Parenthesis => Delimiter::Parenthesis,
                    proc_macro2::Delimiter::Brace => Delimiter::Brace,
                    proc_macro2::Delimiter::Bracket => Delimiter::Bracket,
                    proc_macro2::Delimiter::None => Delimiter::Invisible,
                };
                out.push(Tok::Open(d));
                push_stream(g.stream(), out);
                out.push(Tok::Close(d));
            }
            TokenTree::Ident(i) => out.push(Tok::Ident(i.to_string())),
            TokenTree::Punct(p) => out.push(Tok::Punct(
                p.as_char(),
                match p.spacing() {
                    proc_macro2::Spacing::Joint => Spacing::Joint,
                    proc_macro2::Spacing::Alone => Spacing::Alone,
                },
            )),
            TokenTree::Literal(l) => out.push(Tok::Literal(l.to_string())),
        }
    }
}

fn flat(src: &str) -> Vec<Tok> {
    let ts: TokenStream = src.parse().unwrap();
    let mut out = Vec::new();
    push_stream(ts, &mut out);
    out
}

const SPELL: &str = "#[derive(Clone, Copy, PartialEq, Eq, Hash, Debug)] pub struct SpellId(bevy::ecs::intern::Interned<str>);";

#[test]
fn default_features_are_serde_without_dev() {
    let f = Features::default();
    assert!(f.serde);
    assert!(!f.dev);
}

#[test]
fn interner_is_named_after_the_type_in_upper_case() {
    assert_eq!(interner_name("SpellId"), "SPELLID_INTERNER");
    assert_eq!(interner_name("quest_id"), "QUEST_ID_INTERNER");
}

#[test]
fn derive_output_is_one_anonymous_const_block() {
    let out = derive_interned_id(&flat(SPELL), Features::default()).unwrap();
    assert!(out.starts_with("const _: () = {\n"));
    assert!(out.ends_with("};\n"));
    let file = syn::parse_str::<syn::File>(&out).unwrap();
    assert_eq!(file.items.len(), 1);
    assert!(matches!(file.items[0], syn::Item::Const(_)));
}

#[test]
fn derive_generates_the_documented_api() {
    let out = derive_interned_id(&flat(SPELL), Features::default()).unwrap();
    assert!(out.contains("static SPELLID_INTERNER: bevy::ecs::intern::Interner<str>"));
    assert!(out.contains("pub fn new(id: &str) -> Self {\n        Self(SPELLID_INTERNER.intern(id))"));
    assert!(out.contains("pub fn as_str(&self) -> &'static str"));
    assert!(out.contains("impl ::std::fmt::Display for SpellId"));
    assert!(out.contains("impl ::std::convert::From<&str> for SpellId"));
    assert!(out.contains("impl ::std::convert::From<::std::string::String> for SpellId"));
    assert!(out.contains("impl ::std::ops::Deref for SpellId"));
    assert!(out.contains("impl ::std::default::Default for SpellId {\n    fn default() -> Self {\n        Self::new(\"\")"));
    assert!(out.contains("serializer.serialize_str(self.as_str())"));
    assert!(out.contains("impl bevy::reflect::PartialReflect for SpellId"));
    assert!(out.contains("impl bevy::reflect::Reflect for SpellId"));
    assert!(out.contains("::std::concat!(::std::module_path!(), \"::\", \"SpellId\")"));
    assert!(out.contains("impl bevy::reflect::GetTypeRegistration for SpellId"));
    assert!(!out.contains("bevy_inspector_egui"));
}

#[test]
fn derive_output_is_the_sections_in_order() {
    let f = Features { serde: true, dev: true };
    let out = derive_interned_id(&flat(SPELL), f).unwrap();
    let expected = format!(
        "const _: () = {{\n{}{}{}{}{}{}{}}};\n",
        generate_core_impl("SpellId", "SPELLID_INTERNER"),
        generate_standard_traits("SpellId"),
        generate_serde_impls("SpellId"),
        generate_partial_reflect_impl("SpellId", "SpellId"),
        generate_reflect_impl("SpellId"),
        generate_reflection_meta_impls("SpellId", "SpellId", true),
        generate_inspector_impl("SpellId"),
    );
    assert_eq!(out, expected);
    assert_eq!(expand_derive("SpellId", "SPELLID_INTERNER", f), expected);
}

const SERDE_TYPE_DATA: &str = "        registration.insert::<bevy::reflect::ReflectSerialize>(\n            bevy::reflect::FromType::<Self>::from_type(),\n        );\n        registration.insert::<bevy::reflect::ReflectDeserialize>(\n            bevy::reflect::FromType::<Self>::from_type(),\n        );\n";

#[test]
fn serde_feature_off_leaves_out_serde_only() {
    let on = expand_derive("QuestId", "QUESTID_INTERNER", Features { serde: true, dev: false });
    let off = expand_derive("QuestId", "QUESTID_INTERNER", Features { serde: false, dev: false });
    assert!(!off.contains("serde"));
    assert!(!off.contains("ReflectSerialize"));
    assert!(on.contains(SERDE_TYPE_DATA));
    let serde = generate_serde_impls("QuestId");
    assert_eq!(on.replacen(&serde, "", 1).replacen(SERDE_TYPE_DATA, "", 1), off);
    assert!(syn::parse_str::<syn::File>(&off).is_ok());
}

#[test]
fn serde_registers_reflection_serializers_for_scenes() {
    let with = generate_reflection_meta_impls("SaveId", "SaveId", true);
    let without = generate_reflection_meta_impls("SaveId", "SaveId", false);
    assert!(with.contains("registration.insert::<bevy::reflect::ReflectSerialize>("));
    assert!(with.contains("registration.insert::<bevy::reflect::ReflectDeserialize>("));
    assert!(with.ends_with(&format!("{}        registration\n    }}\n}}\n", SERDE_TYPE_DATA)));
    assert_eq!(with.replacen(SERDE_TYPE_DATA, "", 1), without);
    assert!(without.contains("ReflectDefault"));
}

fn unqualified_prelude_names(text: &str) -> Vec<String> {
    let names = ["Result", "Option", "Box", "String", "From", "Default", "Some", "Ok", "Err"];
    let bytes = text.as_bytes();
    let mut found = Vec::new();
    for name in names {
        let mut start = 0;
        while let Some(pos) = text[start..].find(name) {
            let at = start + pos;
            let end = at + name.len();
            let before_ok = at == 0 || {
                let b = bytes[at - 1];
                !(b.is_ascii_alphanumeric() || b == b'_')
            };
            let after_ok = end == bytes.len() || {
                let b = bytes[end];
                !(b.is_ascii_alphanumeric() || b == b'_')
            };
            let qualified = at >= 2 && &text[at - 2..at] == "::";
            if before_ok && after_ok && !qualified {
                found.push(format!("{} at {}", name, at));
            }
            start = end;
        }
    }
    found
}

#[test]
fn std_items_are_reached_through_std_paths() {
    let out = expand_derive("SpellId", "SPELLID_INTERNER", Features { serde: true, dev: true });
    assert_eq!(unqualified_prelude_names(&out), Vec::<String>::new());
    for name in ["::std::result::Result", "::std::option::Option", "::std::boxed::Box",
        "::std::string::String", "::std::convert::From", "::std::default::Default"] {
        assert!(out.contains(name), "{}", name);
    }
    assert!(out.contains("::std::write!(f, "));
    assert!(!out.contains(" write!("));
}

#[test]
fn dev_feature_adds_the_inspector_at_the_end() {
    let off = expand_derive("ItemId", "ITEMID_INTERNER", Features { serde: true, dev: false });
    let on = expand_derive("ItemId", "ITEMID_INTERNER", Features { serde: true, dev: true });
    let inspector = generate_inspector_impl("ItemId");
    assert!(inspector.contains("InspectorPrimitive for ItemId"));
    assert_eq!(on, format!("{}{}}};\n", &off[..off.len() - 3], inspector));
    assert!(syn::parse_str::<syn::File>(&on).is_ok());
}

#[test]
fn generated_sections_are_valid_rust() {
    for text in [
        generate_core_impl("A", "A_INTERNER"),
        generate_standard_traits("A"),
        generate_serde_impls("A"),
        generate_partial_reflect_impl("A", "A"),
        generate_reflect_impl("A"),
        generate_reflection_meta_impls("A", "A", true),
        generate_reflection_meta_impls("A", "A", false),
        generate_inspector_impl("A"),
    ] {
        assert!(syn::parse_str::<syn::File>(&text).is_ok(), "{}", text);
    }
}

#[test]
fn name_str_is_written_as_a_string_literal() {
    let meta = generate_reflection_meta_impls("Foo", "Bar", false);
    assert!(meta.contains("impl bevy::reflect::TypePath for Foo"));
    assert!(meta.contains("fn short_type_path() -> &'static str {\n        \"Bar\""));
    let partial = generate_partial_reflect_impl("Foo", "Bar");
    assert!(partial.contains("::std::write!(f, \"{}(\\\"{}\\\")\", \"Bar\", self.as_str())"));
}

#[test]
fn derive_reads_the_name_of_generic_and_attributed_items() {
    let out = derive_interned_id(
        &flat("#[derive(Component)] pub(crate) struct ItemId(bevy::ecs::intern::Interned<str>);"),
        Features::default(),
    )
    .unwrap();
    assert!(out.contains("static ITEMID_INTERNER"));
    assert!(out.contains("impl ItemId {"));
}

#[test]
fn derive_refuses_what_is_not_a_type() {
    match derive_interned_id(&flat("fn foo() {}"), Features::default()) {
        Err(DeriveError::Parse(msg)) => assert!(!msg.is_empty()),
        other => panic!("unexpected {:?}", other),
    }
}

#[test]
fn raw_type_names_give_no_interner() {
    assert_eq!(
        derive_interned_id(&flat("struct r#type(u8);"), Features::default()),
        Err(DeriveError::InvalidInternerName("R#TYPE_INTERNER".to_string()))
    );
}
