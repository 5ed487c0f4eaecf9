//! The expansion behind the display derive: a display implementation that
//! forwards to the structure's debug form. Only the name and the generics of
//! the declaration flow into it.

use vstd::prelude::*;
use crate::ast::{StructDef, StructV};
use crate::output::{DisplayImpl, DisplayImplV};

verus! {

/// What the expansion synthesizes: the forwarding implementation for the
/// declaration's name and generics.
pub open spec fn expand_spec(s: StructV) -> DisplayImplV {
    DisplayImplV { ident: s.ident, generics: s.generics }
}

/// Synthesizes the display implementation, exactly as `expand_spec` states.
pub fn expand(struct_: &StructDef) -> (r: DisplayImpl)
    ensures
        r@ == expand_spec(struct_@),
{
    DisplayImpl {
        ident: struct_.ident.clone(),
        generics: struct_.generics.clone_generics(),
    }
}

} // verus!
