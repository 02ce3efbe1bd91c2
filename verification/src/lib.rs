//! Diagnostics for a procedural macro that validates its input.
//!
//! A validation step that fails returns an [`error::Error`]. The macro's entry
//! point turns that value into the tokens it hands back to the compiler: a call
//! of `::core::compile_error!` with the error's message, placed at the part of
//! the input that the error is about.
//!
//! The compiler's own token and span types exist only while a macro is being
//! expanded. This crate therefore works on values of its own: a
//! [`span::Location`] names a span, a [`token::SourceToken`] is a token of the
//! input as far as a message needs it, and a [`token::Token`] is a token of the
//! output, to be turned into the compiler's one for one.
pub mod error;
pub mod laws;
pub mod span;
pub mod syntax;
pub mod token;
