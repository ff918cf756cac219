# macro_workshop

The verified core of three procedural macros:

- `Builder` (`src/builder.rs`): derives a builder for a struct with named
  fields, with optional fields, and "each" setters for `Vec` fields marked
  `#[builder(each = "name")]`.
- `CustomDebug` (`src/debug.rs`): derives `Debug`, writing fields marked
  `#[debug = "fmt"]` through their format string and bounding every type
  parameter by `std::fmt::Debug`.
- `seq!` (`src/seq.rs`): `seq!(N in 0..4 { ... })` repeats its body once per
  number of the range, with `N` replaced by the number.

`src/tokens.rs` and `src/model.rs` hold plain models of token trees and of the
syntax the derives read; `src/syntax.rs` hands a derive's input tokens to syn
and reads the item's parts back as token trees. Every decision of the macros is made in `src/` and
proved against its contract with Verus; the laws of each macro are public proof
functions beside it.

`app/` is the glue: it turns `proc_macro2` token streams into the library's
token trees and back, and renders the derives' plans into code with `quote!`.
