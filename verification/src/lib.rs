//! Binding tables for native classes exposed to a dynamic object runtime.
//!
//! Given the members of one implementation block, already tagged by the
//! signature classifier, the library sorts them into the method table, the
//! protocol slot table and the supporting trait implementations, merges the
//! complementary operator fragments into shared slots, and renders the
//! registration code as Rust source text.

pub mod emit;
pub mod error;
pub mod fragments;
pub mod konst;
pub mod member;
pub mod options;
pub mod pyimpl;
pub mod slice;
pub mod slots;
pub mod syntax;
pub mod text;
pub mod wrap;
