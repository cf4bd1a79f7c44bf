//! Code generators in the style of compile-time macros, over source text.
//!
//! A generator takes the text of an invocation or of a declaration and gives the
//! text that replaces it, or an [`syntax::ExpandError`] where expansion has to fail.
//! The grammar of expressions and declarations is left to `syn`; what is emitted
//! is stated exactly, as a sequence of characters.

pub mod text;
pub mod syntax;
pub mod transform;
pub mod patterns;
pub mod demo;
