//! What the code generated by the `InternedId` derive does, method by method,
//! for every type name: each law names a section of the generated source and
//! the methods it must hold, written out here on their own.
use vstd::prelude::*;

use crate::derive::{derive_expansion_text, interner_name_of, Features};
use crate::generate::{
    any_and_reflect_casts_text,
    apply_method_text,
    as_str_method_text,
    core_impl_text,
    debug_method_text,
    default_impl_text,
    deref_impl_text,
    deserialize_impl_text,
    display_impl_text,
    from_reflect_impl_text,
    from_str_impl_text,
    from_string_impl_text,
    inspector_impl_text,
    interner_static_text,
    new_method_text,
    opaque_kind_methods_text,
    partial_reflect_casts_text,
    partial_reflect_impl_text,
    reflect_clone_method_text,
    reflect_deserialize_insert_text,
    reflect_hash_method_text,
    reflect_impl_text,
    reflect_partial_eq_method_text,
    reflect_serialize_insert_text,
    reflection_meta_start_text,
    registration_end_text,
    registration_method_text,
    represented_type_info_method_text,
    serde_impls_text,
    serde_type_data_text,
    serialize_impl_text,
    set_method_text,
    standard_traits_text,
    try_apply_method_text,
    try_reflect_methods_text,
    type_path_impl_text,
    typed_impl_text,
    ui_method_text,
    ui_readonly_method_text,
};

verus! {

/// Whether `part` occurs in `text` as one contiguous piece.
#[verifier::opaque]
pub open spec fn holds_text(text: Seq<char>, part: Seq<char>) -> bool {
    exists|i: int|
        0 <= i && i + part.len() <= text.len() && #[trigger] text.subrange(i, i + part.len())
            == part
}

/// A text holds itself.
pub broadcast proof fn lemma_holds_whole(part: Seq<char>)
    ensures
        #[trigger] holds_text(part, part),
{
    reveal(holds_text);
    assert(part.subrange(0int, 0int + part.len()) =~= part);
}

/// What the first half of a text holds, the whole text holds.
pub broadcast proof fn lemma_holds_in_left(a: Seq<char>, b: Seq<char>, part: Seq<char>)
    requires
        holds_text(a, part),
    ensures
        #[trigger] holds_text(a + b, part),
{
    reveal(holds_text);
    let i = choose|i: int|
        0 <= i && i + part.len() <= a.len() && #[trigger] a.subrange(i, i + part.len()) == part;
    assert((a + b).subrange(i, i + part.len()) =~= a.subrange(i, i + part.len()));
}

/// What the second half of a text holds, the whole text holds.
pub broadcast proof fn lemma_holds_in_right(a: Seq<char>, b: Seq<char>, part: Seq<char>)
    requires
        holds_text(b, part),
    ensures
        #[trigger] holds_text(a + b, part),
{
    reveal(holds_text);
    let i = choose|i: int|
        0 <= i && i + part.len() <= b.len() && #[trigger] b.subrange(i, i + part.len()) == part;
    assert((a + b).subrange(a.len() + i, a.len() + i + part.len()) =~= b.subrange(
        i,
        i + part.len(),
    ));
}

pub broadcast group group_holds_text {
    lemma_holds_whole,
    lemma_holds_in_left,
    lemma_holds_in_right,
}

/// The inherent impl keeps the string it is given: `new` interns its argument
/// in the type's own interner static, and `as_str` returns the interned
/// string the ID holds, so that `as_str(new(s))` is `s`.
pub proof fn law_as_str_gives_back_new(name: Seq<char>, interner_name: Seq<char>)
    ensures
        holds_text(
            core_impl_text(name, interner_name),
            "static "@
                + interner_name
                + ": bevy::ecs::intern::Interner<str> = bevy::ecs::intern::Interner::new();"@,
        ),
        holds_text(
            core_impl_text(name, interner_name),
            "    pub fn new(id: &str) -> Self {\n        Self("@
                + interner_name
                + ".intern(id))\n    }"@,
        ),
        holds_text(
            core_impl_text(name, interner_name),
            "    pub fn as_str(&self) -> &'static str {\n        self.0.0\n    }"@,
        ),
{
    broadcast use group_holds_text;

    reveal(core_impl_text);
    reveal(interner_static_text);
    reveal(new_method_text);
    reveal(as_str_method_text);
}

/// The standard traits agree with `new` and `as_str`: `from(s)` is `new(s)`
/// for a `&str` and for a `String`, the default ID is `new("")`, an ID derefs
/// to the string it holds and displays as that string.
pub proof fn law_conversions_go_through_new(name: Seq<char>)
    ensures
        holds_text(
            standard_traits_text(name),
            "impl ::std::fmt::Display for "@
                + name
                + " {\n    fn fmt(&self, f: &mut ::std::fmt::Formatter<'_>) -> ::std::fmt::Result {\n        ::std::write!(f, \"{}\", self.as_str())\n    }\n}"@,
        ),
        holds_text(
            standard_traits_text(name),
            "impl ::std::convert::From<&str> for "@
                + name
                + " {\n    fn from(s: &str) -> Self {\n        Self::new(s)\n    }\n}"@,
        ),
        holds_text(
            standard_traits_text(name),
            "impl ::std::convert::From<::std::string::String> for "@
                + name
                + " {\n    fn from(s: ::std::string::String) -> Self {\n        Self::new(&s)\n    }\n}"@,
        ),
        holds_text(
            standard_traits_text(name),
            "impl ::std::ops::Deref for "@
                + name
                + " {\n    type Target = str;\n\n    fn deref(&self) -> &Self::Target {\n        self.0.0\n    }\n}"@,
        ),
        holds_text(
            standard_traits_text(name),
            "impl ::std::default::Default for "@
                + name
                + " {\n    fn default() -> Self {\n        Self::new(\"\")\n    }\n}"@,
        ),
{
    broadcast use group_holds_text;

    reveal(standard_traits_text);
    reveal(display_impl_text);
    reveal(from_str_impl_text);
    reveal(from_string_impl_text);
    reveal(deref_impl_text);
    reveal(default_impl_text);
}

/// An ID serializes as the plain string `as_str` gives, and deserializes by
/// reading a plain string and passing exactly that string to `new`: with
/// [`law_as_str_gives_back_new`], deserializing what was serialized gives back
/// the same ID.
pub proof fn law_serde_round_trip(name: Seq<char>)
    ensures
        holds_text(
            serde_impls_text(name),
            "impl serde::Serialize for "@
                + name
                + " {\n    fn serialize<S>(&self, serializer: S) -> ::std::result::Result<S::Ok, S::Error>\n    where\n        S: serde::Serializer,\n    {\n        serializer.serialize_str(self.as_str())\n    }\n}"@,
        ),
        holds_text(
            serde_impls_text(name),
            "impl<'de> serde::Deserialize<'de> for "@
                + name
                + " {\n    fn deserialize<D>(deserializer: D) -> ::std::result::Result<Self, D::Error>\n    where\n        D: serde::Deserializer<'de>,\n    {\n        let s = <::std::string::String as serde::Deserialize<'de>>::deserialize(deserializer)?;\n        ::std::result::Result::Ok("@
                + name
                + "::new(&s))\n    }\n}"@,
        ),
{
    broadcast use group_holds_text;

    reveal(serde_impls_text);
    reveal(serialize_impl_text);
    reveal(deserialize_impl_text);
}

/// Through reflection an ID is an opaque value that stands for itself and is
/// compared, hashed, copied and cloned as itself: `reflect_partial_eq` is the
/// ID's own `==` on a value of the same type (so an ID is equal to itself),
/// `apply` and `try_apply` copy such a value and `try_apply` refuses any other
/// with `MismatchedTypes`, `reflect_hash` is the ID's own hash,
/// `reflect_clone` a copy, and `debug` writes `name_str` and the ID's string.
pub proof fn law_partial_reflect_by_value(name: Seq<char>, name_str: Seq<char>)
    ensures
        holds_text(
            partial_reflect_impl_text(name, name_str),
            "    fn get_represented_type_info(&self) -> ::std::option::Option<&'static bevy::reflect::TypeInfo> {\n        ::std::option::Option::Some(<Self as bevy::reflect::Typed>::type_info())\n    }"@,
        ),
        holds_text(
            partial_reflect_impl_text(name, name_str),
            "    fn into_partial_reflect(self: ::std::boxed::Box<Self>) -> ::std::boxed::Box<dyn bevy::reflect::PartialReflect> {\n        self\n    }\n\n    fn as_partial_reflect(&self) -> &dyn bevy::reflect::PartialReflect {\n        self\n    }\n\n    fn as_partial_reflect_mut(&mut self) -> &mut dyn bevy::reflect::PartialReflect {\n        self\n    }"@,
        ),
        holds_text(
            partial_reflect_impl_text(name, name_str),
            "    fn try_into_reflect(\n        self: ::std::boxed::Box<Self>,\n    ) -> ::std::result::Result<::std::boxed::Box<dyn bevy::reflect::Reflect>, ::std::boxed::Box<dyn bevy::reflect::PartialReflect>>\n    {\n        ::std::result::Result::Ok(self)\n    }\n\n    fn try_as_reflect(&self) -> ::std::option::Option<&dyn bevy::reflect::Reflect> {\n        ::std::option::Option::Some(self)\n    }\n\n    fn try_as_reflect_mut(&mut self) -> ::std::option::Option<&mut dyn bevy::reflect::Reflect> {\n        ::std::option::Option::Some(self)\n    }"@,
        ),
        holds_text(
            partial_reflect_impl_text(name, name_str),
            "    fn apply(&mut self, value: &dyn bevy::reflect::PartialReflect) {\n        if let ::std::option::Option::Some(other) = value.try_downcast_ref::<Self>() {\n            *self = *other;\n        }\n    }"@,
        ),
        holds_text(
            partial_reflect_impl_text(name, name_str),
            "    fn try_apply(\n        &mut self,\n        value: &dyn bevy::reflect::PartialReflect,\n    ) -> ::std::result::Result<(), bevy::reflect::ApplyError> {\n        if let ::std::option::Option::Some(other) = value.try_downcast_ref::<Self>() {\n            *self = *other;\n            ::std::result::Result::Ok(())\n        } else {\n            ::std::result::Result::Err(bevy::reflect::ApplyError::MismatchedTypes {\n                from_type: value.reflect_type_path().to_string().into_boxed_str(),\n                to_type: <Self as bevy::reflect::TypePath>::type_path()\n                    .to_string()\n                    .into_boxed_str(),\n            })\n        }\n    }"@,
        ),
        holds_text(
            partial_reflect_impl_text(name, name_str),
            "    fn reflect_kind(&self) -> bevy::reflect::ReflectKind {\n        bevy::reflect::ReflectKind::Opaque\n    }\n\n    fn reflect_ref(&self) -> bevy::reflect::ReflectRef<'_> {\n        bevy::reflect::ReflectRef::Opaque(self)\n    }\n\n    fn reflect_mut(&mut self) -> bevy::reflect::ReflectMut<'_> {\n        bevy::reflect::ReflectMut::Opaque(self)\n    }\n\n    fn reflect_owned(self: ::std::boxed::Box<Self>) -> bevy::reflect::ReflectOwned {\n        bevy::reflect::ReflectOwned::Opaque(self)\n    }"@,
        ),
        holds_text(
            partial_reflect_impl_text(name, name_str),
            "    fn reflect_hash(&self) -> ::std::option::Option<u64> {\n        use ::std::hash::{Hash, Hasher};\n        let mut hasher = ::std::collections::hash_map::DefaultHasher::new();\n        self.hash(&mut hasher);\n        ::std::option::Option::Some(hasher.finish())\n    }"@,
        ),
        holds_text(
            partial_reflect_impl_text(name, name_str),
            "    fn reflect_partial_eq(\n        &self,\n        value: &dyn bevy::reflect::PartialReflect,\n    ) -> ::std::option::Option<bool> {\n        value.try_downcast_ref::<Self>().map(|other| self == other)\n    }"@,
        ),
        holds_text(
            partial_reflect_impl_text(name, name_str),
            "    fn debug(&self, f: &mut ::std::fmt::Formatter<'_>) -> ::std::fmt::Result {\n        ::std::write!(f, \"{}(\\\"{}\\\")\", \""@
                + name_str
                + "\", self.as_str())\n    }"@,
        ),
        holds_text(
            partial_reflect_impl_text(name, name_str),
            "    fn reflect_clone(&self) -> ::std::result::Result<::std::boxed::Box<dyn bevy::reflect::Reflect>, bevy::reflect::ReflectCloneError> {\n        ::std::result::Result::Ok(::std::boxed::Box::new(*self))\n    }"@,
        ),
{
    broadcast use group_holds_text;

    reveal(partial_reflect_impl_text);
    reveal(represented_type_info_method_text);
    reveal(partial_reflect_casts_text);
    reveal(try_reflect_methods_text);
    reveal(apply_method_text);
    reveal(try_apply_method_text);
    reveal(opaque_kind_methods_text);
    reveal(reflect_hash_method_text);
    reveal(reflect_partial_eq_method_text);
    reveal(debug_method_text);
    reveal(reflect_clone_method_text);
}

/// As a `Reflect` the ID stands for itself, and `set` replaces the ID by a
/// boxed value of the same type and hands back a value of any other type.
pub proof fn law_reflect_set_replaces(name: Seq<char>)
    ensures
        holds_text(
            reflect_impl_text(name),
            "    fn into_any(self: ::std::boxed::Box<Self>) -> ::std::boxed::Box<dyn ::std::any::Any> {\n        self\n    }\n\n    fn as_any(&self) -> &dyn ::std::any::Any {\n        self\n    }\n\n    fn as_any_mut(&mut self) -> &mut dyn ::std::any::Any {\n        self\n    }\n\n    fn into_reflect(self: ::std::boxed::Box<Self>) -> ::std::boxed::Box<dyn bevy::reflect::Reflect> {\n        self\n    }\n\n    fn as_reflect(&self) -> &dyn bevy::reflect::Reflect {\n        self\n    }\n\n    fn as_reflect_mut(&mut self) -> &mut dyn bevy::reflect::Reflect {\n        self\n    }"@,
        ),
        holds_text(
            reflect_impl_text(name),
            "    fn set(\n        &mut self,\n        value: ::std::boxed::Box<dyn bevy::reflect::Reflect>,\n    ) -> ::std::result::Result<(), ::std::boxed::Box<dyn bevy::reflect::Reflect>> {\n        *self = *value.downcast()?;\n        ::std::result::Result::Ok(())\n    }"@,
        ),
{
    broadcast use group_holds_text;

    reveal(reflect_impl_text);
    reveal(any_and_reflect_casts_text);
    reveal(set_method_text);
}

/// The type describes itself as opaque, is found under `name_str` after its
/// module path, is rebuilt from a reflected value of the same type by copying
/// it, and its registration, which `get_type_registration` returns, holds
/// `ReflectFromReflect`, `ReflectFromPtr` and `ReflectDefault` type data; with
/// `serde` on, `ReflectSerialize` and `ReflectDeserialize` as well.
pub proof fn law_type_registration(name: Seq<char>, name_str: Seq<char>)
    ensures
        holds_text(
            reflection_meta_start_text(name, name_str),
            "impl bevy::reflect::Typed for "@
                + name
                + " {\n    fn type_info() -> &'static bevy::reflect::TypeInfo {\n        static CELL: bevy::reflect::utility::NonGenericTypeInfoCell =\n            bevy::reflect::utility::NonGenericTypeInfoCell::new();\n        CELL.get_or_set(|| {\n            bevy::reflect::TypeInfo::Opaque(bevy::reflect::OpaqueInfo::new::<Self>())\n        })\n    }\n}"@,
        ),
        holds_text(
            reflection_meta_start_text(name, name_str),
            "impl bevy::reflect::TypePath for "@
                + name
                + " {\n    fn type_path() -> &'static str {\n        ::std::concat!(::std::module_path!(), \"::\", \""@
                + name_str
                + "\")\n    }\n\n    fn short_type_path() -> &'static str {\n        \""@
                + name_str
                + "\"\n    }\n}"@,
        ),
        holds_text(
            reflection_meta_start_text(name, name_str),
            "impl bevy::reflect::FromReflect for "@
                + name
                + " {\n    fn from_reflect(reflect: &dyn bevy::reflect::PartialReflect) -> ::std::option::Option<Self> {\n        reflect.try_downcast_ref::<Self>().copied()\n    }\n}"@,
        ),
        holds_text(
            reflection_meta_start_text(name, name_str),
            "    fn get_type_registration() -> bevy::reflect::TypeRegistration {\n        let mut registration = bevy::reflect::TypeRegistration::of::<Self>();\n        registration.insert::<bevy::reflect::ReflectFromReflect>(\n            bevy::reflect::FromType::<Self>::from_type(),\n        );\n        registration.insert::<bevy::reflect::ReflectFromPtr>(\n            bevy::reflect::FromType::<Self>::from_type(),\n        );\n        registration.insert::<bevy::prelude::ReflectDefault>(\n            bevy::reflect::FromType::<Self>::from_type(),\n        );"@,
        ),
        holds_text(
            serde_type_data_text(),
            "        registration.insert::<bevy::reflect::ReflectSerialize>(\n            bevy::reflect::FromType::<Self>::from_type(),\n        );"@,
        ),
        holds_text(
            serde_type_data_text(),
            "        registration.insert::<bevy::reflect::ReflectDeserialize>(\n            bevy::reflect::FromType::<Self>::from_type(),\n        );"@,
        ),
        holds_text(registration_end_text(), "        registration\n    }\n}\n"@),
{
    broadcast use group_holds_text;

    reveal(reflection_meta_start_text);
    reveal(serde_type_data_text);
    reveal(registration_end_text);
    reveal(typed_impl_text);
    reveal(type_path_impl_text);
    reveal(from_reflect_impl_text);
    reveal(registration_method_text);
    reveal(reflect_serialize_insert_text);
    reveal(reflect_deserialize_insert_text);
}

/// The inspector shows the ID's string and never edits it: `ui` reports no
/// change.
pub proof fn law_inspector_read_only(name: Seq<char>)
    ensures
        holds_text(
            inspector_impl_text(name),
            "    fn ui(\n        &mut self,\n        ui: &mut bevy_inspector_egui::egui::Ui,\n        _options: &dyn ::std::any::Any,\n        _id: bevy_inspector_egui::egui::Id,\n        _env: bevy_inspector_egui::reflect_inspector::InspectorUi<'_, '_>,\n    ) -> bool {\n        ui.label(self.as_str());\n        false // ID types are not editable\n    }"@,
        ),
        holds_text(
            inspector_impl_text(name),
            "    fn ui_readonly(\n        &self,\n        ui: &mut bevy_inspector_egui::egui::Ui,\n        _options: &dyn ::std::any::Any,\n        _id: bevy_inspector_egui::egui::Id,\n        _env: bevy_inspector_egui::reflect_inspector::InspectorUi<'_, '_>,\n    ) {\n        ui.label(self.as_str());\n    }"@,
        ),
{
    broadcast use group_holds_text;

    reveal(inspector_impl_text);
    reveal(ui_method_text);
    reveal(ui_readonly_method_text);
}

/// The derive with `serde` on round-trips: for every type name, its output
/// interns in the interner named after the type, gives the interned string
/// back from `as_str`, serializes that string and deserializes through `new`
/// on exactly the string read.
pub proof fn law_derive_serde_round_trip(name: Seq<char>, dev: bool)
    ensures
        ({
            let text = derive_expansion_text(
                name,
                interner_name_of(name),
                Features { serde: true, dev },
            );
            &&& holds_text(
                text,
                "    pub fn new(id: &str) -> Self {\n        Self("@ + interner_name_of(name)
                    + ".intern(id))\n    }"@,
            )
            &&& holds_text(
                text,
                "    pub fn as_str(&self) -> &'static str {\n        self.0.0\n    }"@,
            )
            &&& holds_text(
                text,
                "impl serde::Serialize for "@ + name
                    + " {\n    fn serialize<S>(&self, serializer: S) -> ::std::result::Result<S::Ok, S::Error>\n    where\n        S: serde::Serializer,\n    {\n        serializer.serialize_str(self.as_str())\n    }\n}"@,
            )
            &&& holds_text(
                text,
                "impl<'de> serde::Deserialize<'de> for "@ + name
                    + " {\n    fn deserialize<D>(deserializer: D) -> ::std::result::Result<Self, D::Error>\n    where\n        D: serde::Deserializer<'de>,\n    {\n        let s = <::std::string::String as serde::Deserialize<'de>>::deserialize(deserializer)?;\n        ::std::result::Result::Ok("@
                    + name + "::new(&s))\n    }\n}"@,
            )
        }),
{
    broadcast use group_holds_text;

    reveal(core_impl_text);
    reveal(serde_impls_text);
    reveal(new_method_text);
    reveal(as_str_method_text);
    reveal(serialize_impl_text);
    reveal(deserialize_impl_text);
}

} // verus!
