//! Builtin macro expansion for four compiler-intrinsic, function-like macros:
//! `line!`, `column!`, `file!` and `stringify!`.
//!
//! Given the identifier at a macro invocation site, the registry decides
//! whether it names one of the four intrinsics; if so, the expander
//! synthesizes the replacement token tree directly, without running a
//! pattern-matching macro engine. A small scope-completion pass that consumes
//! name-resolution results lives beside it.

pub mod builtin_macro;
pub mod completion;
pub mod position;
pub mod token_tree;
