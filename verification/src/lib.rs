//! A derivation engine: from a parsed type declaration and the name of a trait it
//! synthesises the implementation of that trait, as a code fragment that is data.
//!
//! The declaration ([`decl`]) and the fragments ([`fragment`]) are plain values with
//! mathematical views, and every derivation states its result as a function of the views
//! of its arguments. [`utils`] holds the shared analysis: which fields take part, and how
//! the generics are extended. One module per family of traits synthesises the fragments.
//! [`semantics`] says what the generated operator code computes, and [`laws`] proves what
//! holds of it for every declaration.

pub mod add_like;
pub mod decl;
pub mod deref_to_inner;
pub mod error;
pub mod fragment;
pub mod from;
pub mod laws;
pub mod mul_assign_like;
pub mod not_like;
pub mod pieces;
pub mod semantics;
pub mod seqs;
pub mod text;
pub mod try_into;
pub mod utils;
