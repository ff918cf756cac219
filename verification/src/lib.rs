//! Verified core of three procedural macros: a `Builder` derive, a `CustomDebug`
//! derive and a `seq!` repetition macro.
//!
//! The macros work on a plain model of token trees (`tokens`). The derives
//! read their input with syn (`syntax`) into plain models of the item
//! (`model`) and plan the generated code from them; the `seq!` macro reads and
//! expands its input directly. Turning the compiler's token streams into token
//! trees, and the plans back into code, is left to the surrounding glue crate.
pub mod builder;
pub mod debug;
pub mod model;
pub mod tokens;
pub mod seq;
pub mod syntax;
