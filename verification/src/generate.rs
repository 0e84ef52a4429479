//! The code that the `InternedId` derive generates for a type, section by
//! section, as source text.  `name` is the type's name and `interner_name` the
//! name of its interner static, both as written in Rust source.  Everything
//! from std is reached through a `::std` path, so that the code compiles in
//! modules that shadow prelude names.  The methods and impls whose behaviour
//! matters each have a source text of their own that the sections are built
//! from; [`crate::impl_laws`] states what they do.
use vstd::prelude::*;

verus! {

/// The source text of the interner static.
#[verifier::opaque]
pub open spec fn interner_static_text(interner_name: Seq<char>) -> Seq<char> {
    "static "@
        + interner_name
        + ": bevy::ecs::intern::Interner<str> = bevy::ecs::intern::Interner::new();"@
}

/// Generates the interner static.
fn generate_interner_static(interner_name: &str) -> (r: String)
    ensures
        r@ == interner_static_text(interner_name@),
{
    proof {
        reveal(interner_static_text);
    }
    let mut s = String::from_str("static ");
    s.append(interner_name);
    s.append(": bevy::ecs::intern::Interner<str> = bevy::ecs::intern::Interner::new();");
    s
}

/// The source text of `new`, which interns its argument in the interner static.
#[verifier::opaque]
pub open spec fn new_method_text(interner_name: Seq<char>) -> Seq<char> {
    "    pub fn new(id: &str) -> Self {\n        Self("@
        + interner_name
        + ".intern(id))\n    }"@
}

/// Generates `new`, which interns its argument in the interner static.
fn generate_new_method(interner_name: &str) -> (r: String)
    ensures
        r@ == new_method_text(interner_name@),
{
    proof {
        reveal(new_method_text);
    }
    let mut s = String::from_str("    pub fn new(id: &str) -> Self {\n        Self(");
    s.append(interner_name);
    s.append(".intern(id))\n    }");
    s
}

/// The source text of `as_str`, which returns the interned string the ID holds.
#[verifier::opaque]
pub open spec fn as_str_method_text() -> Seq<char> {
    "    pub fn as_str(&self) -> &'static str {\n        self.0.0\n    }"@
}

/// Generates `as_str`, which returns the interned string the ID holds.
fn generate_as_str_method() -> (r: String)
    ensures
        r@ == as_str_method_text(),
{
    proof {
        reveal(as_str_method_text);
    }
    String::from_str("    pub fn as_str(&self) -> &'static str {\n        self.0.0\n    }")
}

/// The source text of the interner static and the inherent `new` and `as_str` methods.
#[verifier::opaque]
pub open spec fn core_impl_text(name: Seq<char>, interner_name: Seq<char>) -> Seq<char> {
    interner_static_text(interner_name)
        + "\n\nimpl "@
        + name
        + " {\n    /// Create a new ID from a string.\n    /// The string is interned for efficient comparison.\n    #[must_use]\n"@
        + new_method_text(interner_name)
        + "\n\n    /// Get the string value of this ID.\n    /// Returns the interned static string.\n    #[must_use]\n"@
        + as_str_method_text()
        + "\n}\n"@
}

/// Generates the interner static and the inherent `new` and `as_str` methods.
pub fn generate_core_impl(name: &str, interner_name: &str) -> (r: String)
    ensures
        r@ == core_impl_text(name@, interner_name@),
{
    proof {
        reveal(core_impl_text);
    }
    let mut s = generate_interner_static(interner_name);
    s.append("\n\nimpl ");
    s.append(name);
    s.append(" {\n    /// Create a new ID from a string.\n    /// The string is interned for efficient comparison.\n    #[must_use]\n");
    let new_method = generate_new_method(interner_name);
    s.append(new_method.as_str());
    s.append("\n\n    /// Get the string value of this ID.\n    /// Returns the interned static string.\n    #[must_use]\n");
    let as_str_method = generate_as_str_method();
    s.append(as_str_method.as_str());
    s.append("\n}\n");
    s
}

/// The source text of `Display`, which writes `as_str`.
#[verifier::opaque]
pub open spec fn display_impl_text(name: Seq<char>) -> Seq<char> {
    "impl ::std::fmt::Display for "@
        + name
        + " {\n    fn fmt(&self, f: &mut ::std::fmt::Formatter<'_>) -> ::std::fmt::Result {\n        ::std::write!(f, \"{}\", self.as_str())\n    }\n}"@
}

/// Generates `Display`, which writes `as_str`.
fn generate_display_impl(name: &str) -> (r: String)
    ensures
        r@ == display_impl_text(name@),
{
    proof {
        reveal(display_impl_text);
    }
    let mut s = String::from_str("impl ::std::fmt::Display for ");
    s.append(name);
    s.append(" {\n    fn fmt(&self, f: &mut ::std::fmt::Formatter<'_>) -> ::std::fmt::Result {\n        ::std::write!(f, \"{}\", self.as_str())\n    }\n}");
    s
}

/// The source text of `From<&str>`, which goes through `new`.
#[verifier::opaque]
pub open spec fn from_str_impl_text(name: Seq<char>) -> Seq<char> {
    "impl ::std::convert::From<&str> for "@
        + name
        + " {\n    fn from(s: &str) -> Self {\n        Self::new(s)\n    }\n}"@
}

/// Generates `From<&str>`, which goes through `new`.
fn generate_from_str_impl(name: &str) -> (r: String)
    ensures
        r@ == from_str_impl_text(name@),
{
    proof {
        reveal(from_str_impl_text);
    }
    let mut s = String::from_str("impl ::std::convert::From<&str> for ");
    s.append(name);
    s.append(" {\n    fn from(s: &str) -> Self {\n        Self::new(s)\n    }\n}");
    s
}

/// The source text of `From<String>`, which goes through `new`.
#[verifier::opaque]
pub open spec fn from_string_impl_text(name: Seq<char>) -> Seq<char> {
    "impl ::std::convert::From<::std::string::String> for "@
        + name
        + " {\n    fn from(s: ::std::string::String) -> Self {\n        Self::new(&s)\n    }\n}"@
}

/// Generates `From<String>`, which goes through `new`.
fn generate_from_string_impl(name: &str) -> (r: String)
    ensures
        r@ == from_string_impl_text(name@),
{
    proof {
        reveal(from_string_impl_text);
    }
    let mut s = String::from_str("impl ::std::convert::From<::std::string::String> for ");
    s.append(name);
    s.append(" {\n    fn from(s: ::std::string::String) -> Self {\n        Self::new(&s)\n    }\n}");
    s
}

/// The source text of `Deref<Target = str>`, which derefs to the interned string.
#[verifier::opaque]
pub open spec fn deref_impl_text(name: Seq<char>) -> Seq<char> {
    "impl ::std::ops::Deref for "@
        + name
        + " {\n    type Target = str;\n\n    fn deref(&self) -> &Self::Target {\n        self.0.0\n    }\n}"@
}

/// Generates `Deref<Target = str>`, which derefs to the interned string.
fn generate_deref_impl(name: &str) -> (r: String)
    ensures
        r@ == deref_impl_text(name@),
{
    proof {
        reveal(deref_impl_text);
    }
    let mut s = String::from_str("impl ::std::ops::Deref for ");
    s.append(name);
    s.append(" {\n    type Target = str;\n\n    fn deref(&self) -> &Self::Target {\n        self.0.0\n    }\n}");
    s
}

/// The source text of `Default`, the ID of the empty string.
#[verifier::opaque]
pub open spec fn default_impl_text(name: Seq<char>) -> Seq<char> {
    "impl ::std::default::Default for "@
        + name
        + " {\n    fn default() -> Self {\n        Self::new(\"\")\n    }\n}"@
}

/// Generates `Default`, the ID of the empty string.
fn generate_default_impl(name: &str) -> (r: String)
    ensures
        r@ == default_impl_text(name@),
{
    proof {
        reveal(default_impl_text);
    }
    let mut s = String::from_str("impl ::std::default::Default for ");
    s.append(name);
    s.append(" {\n    fn default() -> Self {\n        Self::new(\"\")\n    }\n}");
    s
}

/// The source text of `Display`, `From<&str>`, `From<String>`, `Deref<Target = str>` and `Default` (the empty string).
#[verifier::opaque]
pub open spec fn standard_traits_text(name: Seq<char>) -> Seq<char> {
    display_impl_text(name)
        + "\n\n"@
        + from_str_impl_text(name)
        + "\n\n"@
        + from_string_impl_text(name)
        + "\n\n"@
        + deref_impl_text(name)
        + "\n\n"@
        + default_impl_text(name)
        + "\n"@
}

/// Generates `Display`, `From<&str>`, `From<String>`, `Deref<Target = str>` and `Default` (the empty string).
pub fn generate_standard_traits(name: &str) -> (r: String)
    ensures
        r@ == standard_traits_text(name@),
{
    proof {
        reveal(standard_traits_text);
    }
    let mut s = generate_display_impl(name);
    s.append("\n\n");
    let from_str_impl = generate_from_str_impl(name);
    s.append(from_str_impl.as_str());
    s.append("\n\n");
    let from_string_impl = generate_from_string_impl(name);
    s.append(from_string_impl.as_str());
    s.append("\n\n");
    let deref_impl = generate_deref_impl(name);
    s.append(deref_impl.as_str());
    s.append("\n\n");
    let default_impl = generate_default_impl(name);
    s.append(default_impl.as_str());
    s.append("\n");
    s
}

/// The source text of `serde::Serialize`, which writes `as_str` as a string.
#[verifier::opaque]
pub open spec fn serialize_impl_text(name: Seq<char>) -> Seq<char> {
    "impl serde::Serialize for "@
        + name
        + " {\n    fn serialize<S>(&self, serializer: S) -> ::std::result::Result<S::Ok, S::Error>\n    where\n        S: serde::Serializer,\n    {\n        serializer.serialize_str(self.as_str())\n    }\n}"@
}

/// Generates `serde::Serialize`, which writes `as_str` as a string.
fn generate_serialize_impl(name: &str) -> (r: String)
    ensures
        r@ == serialize_impl_text(name@),
{
    proof {
        reveal(serialize_impl_text);
    }
    let mut s = String::from_str("impl serde::Serialize for ");
    s.append(name);
    s.append(" {\n    fn serialize<S>(&self, serializer: S) -> ::std::result::Result<S::Ok, S::Error>\n    where\n        S: serde::Serializer,\n    {\n        serializer.serialize_str(self.as_str())\n    }\n}");
    s
}

/// The source text of `serde::Deserialize`, which reads a string and goes through `new`.
#[verifier::opaque]
pub open spec fn deserialize_impl_text(name: Seq<char>) -> Seq<char> {
    "impl<'de> serde::Deserialize<'de> for "@
        + name
        + " {\n    fn deserialize<D>(deserializer: D) -> ::std::result::Result<Self, D::Error>\n    where\n        D: serde::Deserializer<'de>,\n    {\n        let s = <::std::string::String as serde::Deserialize<'de>>::deserialize(deserializer)?;\n        ::std::result::Result::Ok("@
        + name
        + "::new(&s))\n    }\n}"@
}

/// Generates `serde::Deserialize`, which reads a string and goes through `new`.
fn generate_deserialize_impl(name: &str) -> (r: String)
    ensures
        r@ == deserialize_impl_text(name@),
{
    proof {
        reveal(deserialize_impl_text);
    }
    let mut s = String::from_str("impl<'de> serde::Deserialize<'de> for ");
    s.append(name);
    s.append(" {\n    fn deserialize<D>(deserializer: D) -> ::std::result::Result<Self, D::Error>\n    where\n        D: serde::Deserializer<'de>,\n    {\n        let s = <::std::string::String as serde::Deserialize<'de>>::deserialize(deserializer)?;\n        ::std::result::Result::Ok(");
    s.append(name);
    s.append("::new(&s))\n    }\n}");
    s
}

/// The source text of `serde::Serialize` and `serde::Deserialize`, as a plain string.
#[verifier::opaque]
pub open spec fn serde_impls_text(name: Seq<char>) -> Seq<char> {
    serialize_impl_text(name)
        + "\n\n"@
        + deserialize_impl_text(name)
        + "\n"@
}

/// Generates `serde::Serialize` and `serde::Deserialize`, as a plain string.
pub fn generate_serde_impls(name: &str) -> (r: String)
    ensures
        r@ == serde_impls_text(name@),
{
    proof {
        reveal(serde_impls_text);
    }
    let mut s = generate_serialize_impl(name);
    s.append("\n\n");
    let deserialize_impl = generate_deserialize_impl(name);
    s.append(deserialize_impl.as_str());
    s.append("\n");
    s
}

/// The source text of `get_represented_type_info`.
#[verifier::opaque]
pub open spec fn represented_type_info_method_text() -> Seq<char> {
    "    fn get_represented_type_info(&self) -> ::std::option::Option<&'static bevy::reflect::TypeInfo> {\n        ::std::option::Option::Some(<Self as bevy::reflect::Typed>::type_info())\n    }"@
}

/// Generates `get_represented_type_info`.
fn generate_represented_type_info_method() -> (r: String)
    ensures
        r@ == represented_type_info_method_text(),
{
    proof {
        reveal(represented_type_info_method_text);
    }
    String::from_str("    fn get_represented_type_info(&self) -> ::std::option::Option<&'static bevy::reflect::TypeInfo> {\n        ::std::option::Option::Some(<Self as bevy::reflect::Typed>::type_info())\n    }")
}

/// The source text of `into_partial_reflect`, `as_partial_reflect` and `as_partial_reflect_mut`, the ID itself.
#[verifier::opaque]
pub open spec fn partial_reflect_casts_text() -> Seq<char> {
    "    fn into_partial_reflect(self: ::std::boxed::Box<Self>) -> ::std::boxed::Box<dyn bevy::reflect::PartialReflect> {\n        self\n    }\n\n    fn as_partial_reflect(&self) -> &dyn bevy::reflect::PartialReflect {\n        self\n    }\n\n    fn as_partial_reflect_mut(&mut self) -> &mut dyn bevy::reflect::PartialReflect {\n        self\n    }"@
}

/// Generates `into_partial_reflect`, `as_partial_reflect` and `as_partial_reflect_mut`, the ID itself.
fn generate_partial_reflect_casts() -> (r: String)
    ensures
        r@ == partial_reflect_casts_text(),
{
    proof {
        reveal(partial_reflect_casts_text);
    }
    String::from_str("    fn into_partial_reflect(self: ::std::boxed::Box<Self>) -> ::std::boxed::Box<dyn bevy::reflect::PartialReflect> {\n        self\n    }\n\n    fn as_partial_reflect(&self) -> &dyn bevy::reflect::PartialReflect {\n        self\n    }\n\n    fn as_partial_reflect_mut(&mut self) -> &mut dyn bevy::reflect::PartialReflect {\n        self\n    }")
}

/// The source text of `try_into_reflect`, `try_as_reflect` and `try_as_reflect_mut`, which always succeed.
#[verifier::opaque]
pub open spec fn try_reflect_methods_text() -> Seq<char> {
    "    fn try_into_reflect(\n        self: ::std::boxed::Box<Self>,\n    ) -> ::std::result::Result<::std::boxed::Box<dyn bevy::reflect::Reflect>, ::std::boxed::Box<dyn bevy::reflect::PartialReflect>>\n    {\n        ::std::result::Result::Ok(self)\n    }\n\n    fn try_as_reflect(&self) -> ::std::option::Option<&dyn bevy::reflect::Reflect> {\n        ::std::option::Option::Some(self)\n    }\n\n    fn try_as_reflect_mut(&mut self) -> ::std::option::Option<&mut dyn bevy::reflect::Reflect> {\n        ::std::option::Option::Some(self)\n    }"@
}

/// Generates `try_into_reflect`, `try_as_reflect` and `try_as_reflect_mut`, which always succeed.
fn generate_try_reflect_methods() -> (r: String)
    ensures
        r@ == try_reflect_methods_text(),
{
    proof {
        reveal(try_reflect_methods_text);
    }
    String::from_str("    fn try_into_reflect(\n        self: ::std::boxed::Box<Self>,\n    ) -> ::std::result::Result<::std::boxed::Box<dyn bevy::reflect::Reflect>, ::std::boxed::Box<dyn bevy::reflect::PartialReflect>>\n    {\n        ::std::result::Result::Ok(self)\n    }\n\n    fn try_as_reflect(&self) -> ::std::option::Option<&dyn bevy::reflect::Reflect> {\n        ::std::option::Option::Some(self)\n    }\n\n    fn try_as_reflect_mut(&mut self) -> ::std::option::Option<&mut dyn bevy::reflect::Reflect> {\n        ::std::option::Option::Some(self)\n    }")
}

/// The source text of `apply`, which copies a value of the same type.
#[verifier::opaque]
pub open spec fn apply_method_text() -> Seq<char> {
    "    fn apply(&mut self, value: &dyn bevy::reflect::PartialReflect) {\n        if let ::std::option::Option::Some(other) = value.try_downcast_ref::<Self>() {\n            *self = *other;\n        }\n    }"@
}

/// Generates `apply`, which copies a value of the same type.
fn generate_apply_method() -> (r: String)
    ensures
        r@ == apply_method_text(),
{
    proof {
        reveal(apply_method_text);
    }
    String::from_str("    fn apply(&mut self, value: &dyn bevy::reflect::PartialReflect) {\n        if let ::std::option::Option::Some(other) = value.try_downcast_ref::<Self>() {\n            *self = *other;\n        }\n    }")
}

/// The source text of `try_apply`, which copies a value of the same type and refuses any other.
#[verifier::opaque]
pub open spec fn try_apply_method_text() -> Seq<char> {
    "    fn try_apply(\n        &mut self,\n        value: &dyn bevy::reflect::PartialReflect,\n    ) -> ::std::result::Result<(), bevy::reflect::ApplyError> {\n        if let ::std::option::Option::Some(other) = value.try_downcast_ref::<Self>() {\n            *self = *other;\n            ::std::result::Result::Ok(())\n        } else {\n            ::std::result::Result::Err(bevy::reflect::ApplyError::MismatchedTypes {\n                from_type: value.reflect_type_path().to_string().into_boxed_str(),\n                to_type: <Self as bevy::reflect::TypePath>::type_path()\n                    .to_string()\n                    .into_boxed_str(),\n            })\n        }\n    }"@
}

/// Generates `try_apply`, which copies a value of the same type and refuses any other.
fn generate_try_apply_method() -> (r: String)
    ensures
        r@ == try_apply_method_text(),
{
    proof {
        reveal(try_apply_method_text);
    }
    String::from_str("    fn try_apply(\n        &mut self,\n        value: &dyn bevy::reflect::PartialReflect,\n    ) -> ::std::result::Result<(), bevy::reflect::ApplyError> {\n        if let ::std::option::Option::Some(other) = value.try_downcast_ref::<Self>() {\n            *self = *other;\n            ::std::result::Result::Ok(())\n        } else {\n            ::std::result::Result::Err(bevy::reflect::ApplyError::MismatchedTypes {\n                from_type: value.reflect_type_path().to_string().into_boxed_str(),\n                to_type: <Self as bevy::reflect::TypePath>::type_path()\n                    .to_string()\n                    .into_boxed_str(),\n            })\n        }\n    }")
}

/// The source text of `reflect_kind`, `reflect_ref`, `reflect_mut` and `reflect_owned`: an opaque value.
#[verifier::opaque]
pub open spec fn opaque_kind_methods_text() -> Seq<char> {
    "    fn reflect_kind(&self) -> bevy::reflect::ReflectKind {\n        bevy::reflect::ReflectKind::Opaque\n    }\n\n    fn reflect_ref(&self) -> bevy::reflect::ReflectRef<'_> {\n        bevy::reflect::ReflectRef::Opaque(self)\n    }\n\n    fn reflect_mut(&mut self) -> bevy::reflect::ReflectMut<'_> {\n        bevy::reflect::ReflectMut::Opaque(self)\n    }\n\n    fn reflect_owned(self: ::std::boxed::Box<Self>) -> bevy::reflect::ReflectOwned {\n        bevy::reflect::ReflectOwned::Opaque(self)\n    }"@
}

/// Generates `reflect_kind`, `reflect_ref`, `reflect_mut` and `reflect_owned`: an opaque value.
fn generate_opaque_kind_methods() -> (r: String)
    ensures
        r@ == opaque_kind_methods_text(),
{
    proof {
        reveal(opaque_kind_methods_text);
    }
    String::from_str("    fn reflect_kind(&self) -> bevy::reflect::ReflectKind {\n        bevy::reflect::ReflectKind::Opaque\n    }\n\n    fn reflect_ref(&self) -> bevy::reflect::ReflectRef<'_> {\n        bevy::reflect::ReflectRef::Opaque(self)\n    }\n\n    fn reflect_mut(&mut self) -> bevy::reflect::ReflectMut<'_> {\n        bevy::reflect::ReflectMut::Opaque(self)\n    }\n\n    fn reflect_owned(self: ::std::boxed::Box<Self>) -> bevy::reflect::ReflectOwned {\n        bevy::reflect::ReflectOwned::Opaque(self)\n    }")
}

/// The source text of `reflect_hash`, the ID's own hash.
#[verifier::opaque]
pub open spec fn reflect_hash_method_text() -> Seq<char> {
    "    fn reflect_hash(&self) -> ::std::option::Option<u64> {\n        use ::std::hash::{Hash, Hasher};\n        let mut hasher = ::std::collections::hash_map::DefaultHasher::new();\n        self.hash(&mut hasher);\n        ::std::option::Option::Some(hasher.finish())\n    }"@
}

/// Generates `reflect_hash`, the ID's own hash.
fn generate_reflect_hash_method() -> (r: String)
    ensures
        r@ == reflect_hash_method_text(),
{
    proof {
        reveal(reflect_hash_method_text);
    }
    String::from_str("    fn reflect_hash(&self) -> ::std::option::Option<u64> {\n        use ::std::hash::{Hash, Hasher};\n        let mut hasher = ::std::collections::hash_map::DefaultHasher::new();\n        self.hash(&mut hasher);\n        ::std::option::Option::Some(hasher.finish())\n    }")
}

/// The source text of `reflect_partial_eq`, the ID's own `==` on a value of the same type.
#[verifier::opaque]
pub open spec fn reflect_partial_eq_method_text() -> Seq<char> {
    "    fn reflect_partial_eq(\n        &self,\n        value: &dyn bevy::reflect::PartialReflect,\n    ) -> ::std::option::Option<bool> {\n        value.try_downcast_ref::<Self>().map(|other| self == other)\n    }"@
}

/// Generates `reflect_partial_eq`, the ID's own `==` on a value of the same type.
fn generate_reflect_partial_eq_method() -> (r: String)
    ensures
        r@ == reflect_partial_eq_method_text(),
{
    proof {
        reveal(reflect_partial_eq_method_text);
    }
    String::from_str("    fn reflect_partial_eq(\n        &self,\n        value: &dyn bevy::reflect::PartialReflect,\n    ) -> ::std::option::Option<bool> {\n        value.try_downcast_ref::<Self>().map(|other| self == other)\n    }")
}

/// The source text of `debug`, the type's name and the ID's string.
#[verifier::opaque]
pub open spec fn debug_method_text(name_str: Seq<char>) -> Seq<char> {
    "    fn debug(&self, f: &mut ::std::fmt::Formatter<'_>) -> ::std::fmt::Result {\n        ::std::write!(f, \"{}(\\\"{}\\\")\", \""@
        + name_str
        + "\", self.as_str())\n    }"@
}

/// Generates `debug`, the type's name and the ID's string.
fn generate_debug_method(name_str: &str) -> (r: String)
    ensures
        r@ == debug_method_text(name_str@),
{
    proof {
        reveal(debug_method_text);
    }
    let mut s = String::from_str("    fn debug(&self, f: &mut ::std::fmt::Formatter<'_>) -> ::std::fmt::Result {\n        ::std::write!(f, \"{}(\\\"{}\\\")\", \"");
    s.append(name_str);
    s.append("\", self.as_str())\n    }");
    s
}

/// The source text of `reflect_clone`, a copy of the ID.
#[verifier::opaque]
pub open spec fn reflect_clone_method_text() -> Seq<char> {
    "    fn reflect_clone(&self) -> ::std::result::Result<::std::boxed::Box<dyn bevy::reflect::Reflect>, bevy::reflect::ReflectCloneError> {\n        ::std::result::Result::Ok(::std::boxed::Box::new(*self))\n    }"@
}

/// Generates `reflect_clone`, a copy of the ID.
fn generate_reflect_clone_method() -> (r: String)
    ensures
        r@ == reflect_clone_method_text(),
{
    proof {
        reveal(reflect_clone_method_text);
    }
    String::from_str("    fn reflect_clone(&self) -> ::std::result::Result<::std::boxed::Box<dyn bevy::reflect::Reflect>, bevy::reflect::ReflectCloneError> {\n        ::std::result::Result::Ok(::std::boxed::Box::new(*self))\n    }")
}

/// The source text of `bevy::reflect::PartialReflect`; `name_str` is written between double quotes as the type's name in its debug output.
#[verifier::opaque]
pub open spec fn partial_reflect_impl_text(name: Seq<char>, name_str: Seq<char>) -> Seq<char> {
    "impl bevy::reflect::PartialReflect for "@
        + name
        + " {\n"@
        + represented_type_info_method_text()
        + "\n\n"@
        + partial_reflect_casts_text()
        + "\n\n"@
        + try_reflect_methods_text()
        + "\n\n"@
        + apply_method_text()
        + "\n\n"@
        + try_apply_method_text()
        + "\n\n"@
        + opaque_kind_methods_text()
        + "\n\n"@
        + reflect_hash_method_text()
        + "\n\n"@
        + reflect_partial_eq_method_text()
        + "\n\n"@
        + debug_method_text(name_str)
        + "\n\n"@
        + reflect_clone_method_text()
        + "\n}\n"@
}

/// Generates `bevy::reflect::PartialReflect`; `name_str` is written between double quotes as the type's name in its debug output.
pub fn generate_partial_reflect_impl(name: &str, name_str: &str) -> (r: String)
    ensures
        r@ == partial_reflect_impl_text(name@, name_str@),
{
    proof {
        reveal(partial_reflect_impl_text);
    }
    let mut s = String::from_str("impl bevy::reflect::PartialReflect for ");
    s.append(name);
    s.append(" {\n");
    let represented_type_info_method = generate_represented_type_info_method();
    s.append(represented_type_info_method.as_str());
    s.append("\n\n");
    let partial_reflect_casts = generate_partial_reflect_casts();
    s.append(partial_reflect_casts.as_str());
    s.append("\n\n");
    let try_reflect_methods = generate_try_reflect_methods();
    s.append(try_reflect_methods.as_str());
    s.append("\n\n");
    let apply_method = generate_apply_method();
    s.append(apply_method.as_str());
    s.append("\n\n");
    let try_apply_method = generate_try_apply_method();
    s.append(try_apply_method.as_str());
    s.append("\n\n");
    let opaque_kind_methods = generate_opaque_kind_methods();
    s.append(opaque_kind_methods.as_str());
    s.append("\n\n");
    let reflect_hash_method = generate_reflect_hash_method();
    s.append(reflect_hash_method.as_str());
    s.append("\n\n");
    let reflect_partial_eq_method = generate_reflect_partial_eq_method();
    s.append(reflect_partial_eq_method.as_str());
    s.append("\n\n");
    let debug_method = generate_debug_method(name_str);
    s.append(debug_method.as_str());
    s.append("\n\n");
    let reflect_clone_method = generate_reflect_clone_method();
    s.append(reflect_clone_method.as_str());
    s.append("\n}\n");
    s
}

/// The source text of `into_any`, `as_any`, `as_any_mut`, `into_reflect`, `as_reflect` and `as_reflect_mut`, the ID itself.
#[verifier::opaque]
pub open spec fn any_and_reflect_casts_text() -> Seq<char> {
    "    fn into_any(self: ::std::boxed::Box<Self>) -> ::std::boxed::Box<dyn ::std::any::Any> {\n        self\n    }\n\n    fn as_any(&self) -> &dyn ::std::any::Any {\n        self\n    }\n\n    fn as_any_mut(&mut self) -> &mut dyn ::std::any::Any {\n        self\n    }\n\n    fn into_reflect(self: ::std::boxed::Box<Self>) -> ::std::boxed::Box<dyn bevy::reflect::Reflect> {\n        self\n    }\n\n    fn as_reflect(&self) -> &dyn bevy::reflect::Reflect {\n        self\n    }\n\n    fn as_reflect_mut(&mut self) -> &mut dyn bevy::reflect::Reflect {\n        self\n    }"@
}

/// Generates `into_any`, `as_any`, `as_any_mut`, `into_reflect`, `as_reflect` and `as_reflect_mut`, the ID itself.
fn generate_any_and_reflect_casts() -> (r: String)
    ensures
        r@ == any_and_reflect_casts_text(),
{
    proof {
        reveal(any_and_reflect_casts_text);
    }
    String::from_str("    fn into_any(self: ::std::boxed::Box<Self>) -> ::std::boxed::Box<dyn ::std::any::Any> {\n        self\n    }\n\n    fn as_any(&self) -> &dyn ::std::any::Any {\n        self\n    }\n\n    fn as_any_mut(&mut self) -> &mut dyn ::std::any::Any {\n        self\n    }\n\n    fn into_reflect(self: ::std::boxed::Box<Self>) -> ::std::boxed::Box<dyn bevy::reflect::Reflect> {\n        self\n    }\n\n    fn as_reflect(&self) -> &dyn bevy::reflect::Reflect {\n        self\n    }\n\n    fn as_reflect_mut(&mut self) -> &mut dyn bevy::reflect::Reflect {\n        self\n    }")
}

/// The source text of `set`, which replaces the ID by a value of the same type.
#[verifier::opaque]
pub open spec fn set_method_text() -> Seq<char> {
    "    fn set(\n        &mut self,\n        value: ::std::boxed::Box<dyn bevy::reflect::Reflect>,\n    ) -> ::std::result::Result<(), ::std::boxed::Box<dyn bevy::reflect::Reflect>> {\n        *self = *value.downcast()?;\n        ::std::result::Result::Ok(())\n    }"@
}

/// Generates `set`, which replaces the ID by a value of the same type.
fn generate_set_method() -> (r: String)
    ensures
        r@ == set_method_text(),
{
    proof {
        reveal(set_method_text);
    }
    String::from_str("    fn set(\n        &mut self,\n        value: ::std::boxed::Box<dyn bevy::reflect::Reflect>,\n    ) -> ::std::result::Result<(), ::std::boxed::Box<dyn bevy::reflect::Reflect>> {\n        *self = *value.downcast()?;\n        ::std::result::Result::Ok(())\n    }")
}

/// The source text of `bevy::reflect::Reflect`.
#[verifier::opaque]
pub open spec fn reflect_impl_text(name: Seq<char>) -> Seq<char> {
    "impl bevy::reflect::Reflect for "@
        + name
        + " {\n"@
        + any_and_reflect_casts_text()
        + "\n\n"@
        + set_method_text()
        + "\n}\n"@
}

/// Generates `bevy::reflect::Reflect`.
pub fn generate_reflect_impl(name: &str) -> (r: String)
    ensures
        r@ == reflect_impl_text(name@),
{
    proof {
        reveal(reflect_impl_text);
    }
    let mut s = String::from_str("impl bevy::reflect::Reflect for ");
    s.append(name);
    s.append(" {\n");
    let any_and_reflect_casts = generate_any_and_reflect_casts();
    s.append(any_and_reflect_casts.as_str());
    s.append("\n\n");
    let set_method = generate_set_method();
    s.append(set_method.as_str());
    s.append("\n}\n");
    s
}

/// The source text of `Typed`: opaque type info.
#[verifier::opaque]
pub open spec fn typed_impl_text(name: Seq<char>) -> Seq<char> {
    "impl bevy::reflect::Typed for "@
        + name
        + " {\n    fn type_info() -> &'static bevy::reflect::TypeInfo {\n        static CELL: bevy::reflect::utility::NonGenericTypeInfoCell =\n            bevy::reflect::utility::NonGenericTypeInfoCell::new();\n        CELL.get_or_set(|| {\n            bevy::reflect::TypeInfo::Opaque(bevy::reflect::OpaqueInfo::new::<Self>())\n        })\n    }\n}"@
}

/// Generates `Typed`: opaque type info.
fn generate_typed_impl(name: &str) -> (r: String)
    ensures
        r@ == typed_impl_text(name@),
{
    proof {
        reveal(typed_impl_text);
    }
    let mut s = String::from_str("impl bevy::reflect::Typed for ");
    s.append(name);
    s.append(" {\n    fn type_info() -> &'static bevy::reflect::TypeInfo {\n        static CELL: bevy::reflect::utility::NonGenericTypeInfoCell =\n            bevy::reflect::utility::NonGenericTypeInfoCell::new();\n        CELL.get_or_set(|| {\n            bevy::reflect::TypeInfo::Opaque(bevy::reflect::OpaqueInfo::new::<Self>())\n        })\n    }\n}");
    s
}

/// The source text of `TypePath`: the type's name after its module path.
#[verifier::opaque]
pub open spec fn type_path_impl_text(name: Seq<char>, name_str: Seq<char>) -> Seq<char> {
    "impl bevy::reflect::TypePath for "@
        + name
        + " {\n    fn type_path() -> &'static str {\n        ::std::concat!(::std::module_path!(), \"::\", \""@
        + name_str
        + "\")\n    }\n\n    fn short_type_path() -> &'static str {\n        \""@
        + name_str
        + "\"\n    }\n}"@
}

/// Generates `TypePath`: the type's name after its module path.
fn generate_type_path_impl(name: &str, name_str: &str) -> (r: String)
    ensures
        r@ == type_path_impl_text(name@, name_str@),
{
    proof {
        reveal(type_path_impl_text);
    }
    let mut s = String::from_str("impl bevy::reflect::TypePath for ");
    s.append(name);
    s.append(" {\n    fn type_path() -> &'static str {\n        ::std::concat!(::std::module_path!(), \"::\", \"");
    s.append(name_str);
    s.append("\")\n    }\n\n    fn short_type_path() -> &'static str {\n        \"");
    s.append(name_str);
    s.append("\"\n    }\n}");
    s
}

/// The source text of `FromReflect`: a copy of a value of the same type.
#[verifier::opaque]
pub open spec fn from_reflect_impl_text(name: Seq<char>) -> Seq<char> {
    "impl bevy::reflect::FromReflect for "@
        + name
        + " {\n    fn from_reflect(reflect: &dyn bevy::reflect::PartialReflect) -> ::std::option::Option<Self> {\n        reflect.try_downcast_ref::<Self>().copied()\n    }\n}"@
}

/// Generates `FromReflect`: a copy of a value of the same type.
fn generate_from_reflect_impl(name: &str) -> (r: String)
    ensures
        r@ == from_reflect_impl_text(name@),
{
    proof {
        reveal(from_reflect_impl_text);
    }
    let mut s = String::from_str("impl bevy::reflect::FromReflect for ");
    s.append(name);
    s.append(" {\n    fn from_reflect(reflect: &dyn bevy::reflect::PartialReflect) -> ::std::option::Option<Self> {\n        reflect.try_downcast_ref::<Self>().copied()\n    }\n}");
    s
}

/// The source text of `get_type_registration` up to the optional serde type data: the type's registration with `ReflectFromReflect`, `ReflectFromPtr` and `ReflectDefault` type data.
#[verifier::opaque]
pub open spec fn registration_method_text() -> Seq<char> {
    "    fn get_type_registration() -> bevy::reflect::TypeRegistration {\n        let mut registration = bevy::reflect::TypeRegistration::of::<Self>();\n        registration.insert::<bevy::reflect::ReflectFromReflect>(\n            bevy::reflect::FromType::<Self>::from_type(),\n        );\n        registration.insert::<bevy::reflect::ReflectFromPtr>(\n            bevy::reflect::FromType::<Self>::from_type(),\n        );\n        registration.insert::<bevy::prelude::ReflectDefault>(\n            bevy::reflect::FromType::<Self>::from_type(),\n        );"@
}

/// Generates `get_type_registration` up to the optional serde type data: the type's registration with `ReflectFromReflect`, `ReflectFromPtr` and `ReflectDefault` type data.
fn generate_registration_method() -> (r: String)
    ensures
        r@ == registration_method_text(),
{
    proof {
        reveal(registration_method_text);
    }
    String::from_str("    fn get_type_registration() -> bevy::reflect::TypeRegistration {\n        let mut registration = bevy::reflect::TypeRegistration::of::<Self>();\n        registration.insert::<bevy::reflect::ReflectFromReflect>(\n            bevy::reflect::FromType::<Self>::from_type(),\n        );\n        registration.insert::<bevy::reflect::ReflectFromPtr>(\n            bevy::reflect::FromType::<Self>::from_type(),\n        );\n        registration.insert::<bevy::prelude::ReflectDefault>(\n            bevy::reflect::FromType::<Self>::from_type(),\n        );")
}

/// The source text of `Typed`, `TypePath`, `FromReflect` and `GetTypeRegistration` up to the optional serde type data; `name_str` is written between double quotes as the type's short path.
#[verifier::opaque]
pub open spec fn reflection_meta_start_text(name: Seq<char>, name_str: Seq<char>) -> Seq<char> {
    typed_impl_text(name)
        + "\n\n"@
        + type_path_impl_text(name, name_str)
        + "\n\n"@
        + from_reflect_impl_text(name)
        + "\n\nimpl bevy::reflect::GetTypeRegistration for "@
        + name
        + " {\n"@
        + registration_method_text()
        + "\n"@
}

/// Generates `Typed`, `TypePath`, `FromReflect` and `GetTypeRegistration` up to the optional serde type data; `name_str` is written between double quotes as the type's short path.
pub(crate) fn generate_reflection_meta_start(name: &str, name_str: &str) -> (r: String)
    ensures
        r@ == reflection_meta_start_text(name@, name_str@),
{
    proof {
        reveal(reflection_meta_start_text);
    }
    let mut s = generate_typed_impl(name);
    s.append("\n\n");
    let type_path_impl = generate_type_path_impl(name, name_str);
    s.append(type_path_impl.as_str());
    s.append("\n\n");
    let from_reflect_impl = generate_from_reflect_impl(name);
    s.append(from_reflect_impl.as_str());
    s.append("\n\nimpl bevy::reflect::GetTypeRegistration for ");
    s.append(name);
    s.append(" {\n");
    let registration_method = generate_registration_method();
    s.append(registration_method.as_str());
    s.append("\n");
    s
}

/// The source text of the `ReflectSerialize` type data.
#[verifier::opaque]
pub open spec fn reflect_serialize_insert_text() -> Seq<char> {
    "        registration.insert::<bevy::reflect::ReflectSerialize>(\n            bevy::reflect::FromType::<Self>::from_type(),\n        );"@
}

/// Generates the `ReflectSerialize` type data.
fn generate_reflect_serialize_insert() -> (r: String)
    ensures
        r@ == reflect_serialize_insert_text(),
{
    proof {
        reveal(reflect_serialize_insert_text);
    }
    String::from_str("        registration.insert::<bevy::reflect::ReflectSerialize>(\n            bevy::reflect::FromType::<Self>::from_type(),\n        );")
}

/// The source text of the `ReflectDeserialize` type data.
#[verifier::opaque]
pub open spec fn reflect_deserialize_insert_text() -> Seq<char> {
    "        registration.insert::<bevy::reflect::ReflectDeserialize>(\n            bevy::reflect::FromType::<Self>::from_type(),\n        );"@
}

/// Generates the `ReflectDeserialize` type data.
fn generate_reflect_deserialize_insert() -> (r: String)
    ensures
        r@ == reflect_deserialize_insert_text(),
{
    proof {
        reveal(reflect_deserialize_insert_text);
    }
    String::from_str("        registration.insert::<bevy::reflect::ReflectDeserialize>(\n            bevy::reflect::FromType::<Self>::from_type(),\n        );")
}

/// The source text of the registration of `ReflectSerialize` and `ReflectDeserialize` type data.
#[verifier::opaque]
pub open spec fn serde_type_data_text() -> Seq<char> {
    reflect_serialize_insert_text()
        + "\n"@
        + reflect_deserialize_insert_text()
        + "\n"@
}

/// Generates the registration of `ReflectSerialize` and `ReflectDeserialize` type data.
pub(crate) fn generate_serde_type_data() -> (r: String)
    ensures
        r@ == serde_type_data_text(),
{
    proof {
        reveal(serde_type_data_text);
    }
    let mut s = generate_reflect_serialize_insert();
    s.append("\n");
    let reflect_deserialize_insert = generate_reflect_deserialize_insert();
    s.append(reflect_deserialize_insert.as_str());
    s.append("\n");
    s
}

/// The source text of the end of `get_type_registration` and of its impl.
#[verifier::opaque]
pub open spec fn registration_end_text() -> Seq<char> {
    "        registration\n    }\n}\n"@
}

/// Generates the end of `get_type_registration` and of its impl.
pub(crate) fn generate_registration_end() -> (r: String)
    ensures
        r@ == registration_end_text(),
{
    proof {
        reveal(registration_end_text);
    }
    String::from_str("        registration\n    }\n}\n")
}

/// The source text of `ui`, which shows `as_str` and never edits.
#[verifier::opaque]
pub open spec fn ui_method_text() -> Seq<char> {
    "    fn ui(\n        &mut self,\n        ui: &mut bevy_inspector_egui::egui::Ui,\n        _options: &dyn ::std::any::Any,\n        _id: bevy_inspector_egui::egui::Id,\n        _env: bevy_inspector_egui::reflect_inspector::InspectorUi<'_, '_>,\n    ) -> bool {\n        ui.label(self.as_str());\n        false // ID types are not editable\n    }"@
}

/// Generates `ui`, which shows `as_str` and never edits.
fn generate_ui_method() -> (r: String)
    ensures
        r@ == ui_method_text(),
{
    proof {
        reveal(ui_method_text);
    }
    String::from_str("    fn ui(\n        &mut self,\n        ui: &mut bevy_inspector_egui::egui::Ui,\n        _options: &dyn ::std::any::Any,\n        _id: bevy_inspector_egui::egui::Id,\n        _env: bevy_inspector_egui::reflect_inspector::InspectorUi<'_, '_>,\n    ) -> bool {\n        ui.label(self.as_str());\n        false // ID types are not editable\n    }")
}

/// The source text of `ui_readonly`, which shows `as_str`.
#[verifier::opaque]
pub open spec fn ui_readonly_method_text() -> Seq<char> {
    "    fn ui_readonly(\n        &self,\n        ui: &mut bevy_inspector_egui::egui::Ui,\n        _options: &dyn ::std::any::Any,\n        _id: bevy_inspector_egui::egui::Id,\n        _env: bevy_inspector_egui::reflect_inspector::InspectorUi<'_, '_>,\n    ) {\n        ui.label(self.as_str());\n    }"@
}

/// Generates `ui_readonly`, which shows `as_str`.
fn generate_ui_readonly_method() -> (r: String)
    ensures
        r@ == ui_readonly_method_text(),
{
    proof {
        reveal(ui_readonly_method_text);
    }
    String::from_str("    fn ui_readonly(\n        &self,\n        ui: &mut bevy_inspector_egui::egui::Ui,\n        _options: &dyn ::std::any::Any,\n        _id: bevy_inspector_egui::egui::Id,\n        _env: bevy_inspector_egui::reflect_inspector::InspectorUi<'_, '_>,\n    ) {\n        ui.label(self.as_str());\n    }")
}

/// The source text of a read-only `bevy_inspector_egui` `InspectorPrimitive`.
#[verifier::opaque]
pub open spec fn inspector_impl_text(name: Seq<char>) -> Seq<char> {
    "impl bevy_inspector_egui::inspector_egui_impls::InspectorPrimitive for "@
        + name
        + " {\n"@
        + ui_method_text()
        + "\n\n"@
        + ui_readonly_method_text()
        + "\n}\n"@
}

/// Generates a read-only `bevy_inspector_egui` `InspectorPrimitive`.
pub fn generate_inspector_impl(name: &str) -> (r: String)
    ensures
        r@ == inspector_impl_text(name@),
{
    proof {
        reveal(inspector_impl_text);
    }
    let mut s = String::from_str("impl bevy_inspector_egui::inspector_egui_impls::InspectorPrimitive for ");
    s.append(name);
    s.append(" {\n");
    let ui_method = generate_ui_method();
    s.append(ui_method.as_str());
    s.append("\n\n");
    let ui_readonly_method = generate_ui_readonly_method();
    s.append(ui_readonly_method.as_str());
    s.append("\n}\n");
    s
}

/// The source text of `Typed`, `TypePath`, `FromReflect` and
/// `GetTypeRegistration`.  The registration inserts `ReflectFromReflect`,
/// `ReflectFromPtr` and `ReflectDefault` type data, and, when `serde` is on,
/// `ReflectSerialize` and `ReflectDeserialize` type data as well, so that the
/// type goes through Bevy's reflection serializer (scenes, save files).
/// `name_str` is written between double quotes as the type's short path.
pub open spec fn reflection_meta_impls_text(name: Seq<char>, name_str: Seq<char>, serde: bool) -> Seq<char> {
    reflection_meta_start_text(name, name_str) + (if serde {
        serde_type_data_text()
    } else {
        seq![]
    }) + registration_end_text()
}

/// Generates `Typed`, `TypePath`, `FromReflect` and `GetTypeRegistration`,
/// registering serde type data when `serde` is on.
pub fn generate_reflection_meta_impls(name: &str, name_str: &str, serde: bool) -> (r: String)
    ensures
        r@ == reflection_meta_impls_text(name@, name_str@, serde),
{
    let mut s = generate_reflection_meta_start(name, name_str);
    let ghost start = s@;
    if serde {
        let data = generate_serde_type_data();
        s.append(data.as_str());
    } else {
        assert(s@ =~= start + seq![]);
    }
    let end = generate_registration_end();
    s.append(end.as_str());
    s
}

} // verus!
