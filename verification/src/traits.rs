//! Runtime conversion trait libraries: functional replacements for the
//! standard `From`/`Into`, `TryInto` and the `as` operator.

pub mod as_prim;

pub mod of_to;

pub mod try_to;
