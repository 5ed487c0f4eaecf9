//! Helpers shared by the expansions: reading a path out of a type, reading
//! the first segment and the first generic argument, and wrapping methods in
//! an inherent `impl` block.

use vstd::prelude::*;
use vstd::pervasive::unreached;
use crate::ast::{Ty, TyV, TyPath, Seg, PathArgs, first_type_arg_of, args_readable, StructDef};
use crate::output::{InherentImpl, MethodDef, methods_views};

verus! {

/// The path of a path type. The caller does not hand any other type in.
pub fn get_path<'a>(elem: &'a Ty) -> (r: &'a TyPath)
    requires
        elem@ is Path,
    ensures
        elem@ == TyV::Path(r@),
{
    match elem {
        Ty::Path(path) => path,
        _ => unreached(),
    }
}

/// The first segment of a path. The caller does not hand an empty path in.
pub fn get_segment<'a>(path: &'a TyPath) -> (r: &'a Seg)
    requires
        path@.len() > 0,
    ensures
        r@ == path@[0],
{
    &path.segments[0]
}

/// The first segment of a path type.
pub fn get_segment_from_type<'a>(type_: &'a Ty) -> (r: &'a Seg)
    requires
        type_@ matches TyV::Path(segs) && segs.len() > 0,
    ensures
        r@ == type_@->Path_0[0],
{
    get_segment(get_path(type_))
}

/// The first angle-bracketed type argument, or an error where the arguments
/// are of another shape. The caller does not hand an empty angle-bracketed
/// list in.
pub fn type_from_args<'a>(arguments: &'a PathArgs) -> (r: Result<&'a Ty, ()>)
    requires
        args_readable(arguments@),
    ensures
        r matches Ok(t) ==> first_type_arg_of(arguments@) == Some(t@),
        r is Err ==> first_type_arg_of(arguments@) is None,
{
    let PathArgs::AngleBracketed(args) = arguments else {
        return Err(());
    };
    let crate::ast::GenArg::TypeArg(arg) = &args[0] else {
        return Err(());
    };
    Ok(arg)
}

/// An inherent `impl` block for the structure, around the given methods.
pub fn fast_impl(struct_: &StructDef, methods: Vec<MethodDef>) -> (r: InherentImpl)
    ensures
        r@.ident == struct_@.ident,
        r@.generics == struct_@.generics,
        r@.methods == methods_views(methods@),
{
    InherentImpl {
        ident: struct_.ident.clone(),
        generics: struct_.generics.clone_generics(),
        methods,
    }
}

} // verus!
