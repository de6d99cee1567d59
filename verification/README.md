# composite_derive

The code generation behind two families of derive macros, `Composite` and `Partial`,
written in Verus and verified.

Applied to a struct, the derives produce a second struct holding a subset of its
fields (`Composite` / `Partial`), a constructor for that struct (`NewComposite` /
`NewPartial`), and conversions between the two (`FromComposite` / `FromPartial`,
`IntoComposite` / `IntoPartial`). Struct-level options (`name`, `derive`, `doc`) and
field-level options (`skip`, `option`, `rename`, `ty_override`) are given in
`#[composite(..)]` or `#[partial(..)]` attributes.

Layout:

- `src/syntax.rs`: the input of a derive as plain values.
- `src/options.rs`, `src/parse.rs`: the attribute grammar, with every problem it reports.
- `src/fields.rs`, `src/generate.rs`: the generated items, rendered as Rust source text;
  each derive's result, or the reason it has none, is stated exactly.
- `src/values.rs`: what the generated constructor and conversions do with field values.
- `src/laws.rs`: proved properties: the conversions undo each other, the constructor
  fills the generated struct, options may be split or reordered, and the generated
  text agrees with the value model.
- `src/traits.rs`: the traits that the conversion derives implement.
- `src/outside.rs`: the calls into `syn` and `proc-macro2`, with the contracts trusted.
- `app/lib.rs`: the token-stream side: reads an item with `syn`, calls the library,
  and turns its answer into tokens or compile errors.
