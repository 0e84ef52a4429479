# bevy_interned_id

The expansion logic of the `InternedId` derive and of the `interned_id!` macro,
verified with Verus.

- `src/` is the verified library. Macro input is taken as a flat sequence of
  tokens (`tokens::Tok`); the generated code is returned as Rust source text.
  Every public function states its result exactly, over spec functions of the
  token sequence; the `laws` module proves the macros' documented properties
  (attribute forwarding, the optional trailing `;`, the anonymous `const`
  block, the optional `serde` and `dev` sections).
- Checks that belong to Rust's own grammar (the contents of an attribute, a
  restricted visibility, an identifier, a derive input) are made by `syn`,
  through the trusted wrappers in `src/syn_calls.rs`.
- `app/` converts between `proc_macro2` token streams and the library's tokens
  and turns errors into compile errors; a `proc-macro` crate forwards its
  entry points to it.
