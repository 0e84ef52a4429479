//! Expansion logic of the `InternedId` derive macro and of the `interned_id!`
//! macro: reading their input tokens and producing the code they expand to.
//!
//! - [`tokens`]: a flat model of token streams, and their source text.
//! - [`def`]: the grammar of an `interned_id!` invocation.
//! - [`expand`]: what an `interned_id!` invocation expands to.
//! - [`generate`]: the code generated for an ID type, section by section.
//! - [`derive`]: the `InternedId` derive as a whole.
//! - [`laws`]: properties of both macros that hold for every input.
//! - [`impl_laws`]: what the generated methods do, for every type name.
//! - [`syn_calls`], [`std_calls`]: the outside functions the library calls.
pub mod def;
pub mod derive;
pub mod expand;
pub mod generate;
pub mod impl_laws;
pub mod laws;
pub mod std_calls;
pub mod syn_calls;
pub mod tokens;
