//! Compile-time code-generation helpers for one source language's compiler
//! front end, together with small conversion trait libraries.
//!
//! The expansion logic inspects the shape of a type declaration — named
//! fields, tuple fields, enum variants, generics, attributes — and decides
//! what trait implementations and inherent methods to synthesize from it,
//! including a combinatorial type-substitution engine that enumerates
//! reference, collection and wrapper permutations of a type signature.
//! The declarations are held in the crate's own model of the host language's
//! type grammar (`ast`); the thin adapter that reads real token streams into
//! that model and prints the synthesized fragments back out lives outside
//! this library.

pub mod ast;

pub mod traits;
pub mod output;
pub mod shared;
pub mod any_type;
pub mod default;
pub mod setter_getter;
pub mod deref;
pub mod new;
pub mod display;
pub mod split;
pub mod prelude;
