//! The expansion behind the dereference derive: it picks the one field that
//! a dereference of the structure returns. A single tuple field is picked by
//! itself; otherwise exactly one field must carry the `deref` attribute.

use vstd::prelude::*;
use vstd::pervasive::unreached;
use crate::ast::{Fields, FieldsV, FieldV, StructDef, StructV};
use crate::output::{DerefImpl, DerefImplV, DerefTarget, DerefTargetV};
use crate::default::{has_attr, has_attr_named};

verus! {

/// The field carries the `deref` mark.
pub open spec fn is_marked(f: FieldV) -> bool {
    has_attr(f.attrs, "deref"@)
}

/// Two different fields carry the mark.
pub open spec fn two_marked(fs: Seq<FieldV>) -> bool {
    exists|i: int, j: int| 0 <= i < j < fs.len() && is_marked(#[trigger] fs[i]) && is_marked(
        #[trigger] fs[j],
    )
}

/// No field carries the mark.
pub open spec fn none_marked(fs: Seq<FieldV>) -> bool {
    forall|i: int| 0 <= i < fs.len() ==> !is_marked(#[trigger] fs[i])
}

/// The first marked field's place, from the given one on.
pub open spec fn first_marked_from(fs: Seq<FieldV>, i: int) -> Option<int>
    decreases fs.len() - i,
{
    if i < 0 || i >= fs.len() {
        None
    } else if is_marked(fs[i]) {
        Some(i)
    } else {
        first_marked_from(fs, i + 1)
    }
}

proof fn lemma_first_marked_at(fs: Seq<FieldV>, k: int)
    requires
        0 <= k < fs.len(),
        is_marked(fs[k]),
        forall|j: int| 0 <= j < k ==> !is_marked(#[trigger] fs[j]),
    ensures
        first_marked_from(fs, 0) == Some(k),
{
    lemma_first_marked_step(fs, 0, k);
}

proof fn lemma_first_marked_step(fs: Seq<FieldV>, i: int, k: int)
    requires
        0 <= i <= k < fs.len(),
        is_marked(fs[k]),
        forall|j: int| i <= j < k ==> !is_marked(#[trigger] fs[j]),
    ensures
        first_marked_from(fs, i) == Some(k),
    decreases k - i,
{
    if i < k {
        lemma_first_marked_step(fs, i + 1, k);
    }
}

proof fn lemma_first_marked_none(fs: Seq<FieldV>, i: int)
    requires
        0 <= i,
        forall|j: int| i <= j < fs.len() ==> !is_marked(#[trigger] fs[j]),
    ensures
        first_marked_from(fs, i) is None,
    decreases fs.len() - i,
{
    if i < fs.len() {
        lemma_first_marked_none(fs, i + 1);
    }
}

/// What stops the expansion.
#[derive(Debug, PartialEq, Eq)]
pub enum DerefError {
    /// More than one field carries the `deref` attribute.
    TooManyMarked,
    /// Several tuple fields, and none carries the attribute.
    UnnamedNeedsMark,
    /// Named fields, and none carries the attribute.
    NamedNeedsMark,
    /// A structure without fields has nothing to dereference to.
    UnitFields,
}

/// What the expansion synthesizes: the dereference target and its type, or
/// the error that stops it. A single tuple field is the target by itself;
/// otherwise the one marked field is.
pub open spec fn expand_spec(s: StructV) -> Result<DerefImplV, DerefError> {
    match s.fields {
        FieldsV::Unnamed(fs) => if fs.len() <= 1 {
            Ok(
                DerefImplV {
                    ident: s.ident,
                    generics: s.generics,
                    target: DerefTargetV::Pos(0),
                    ty: fs[0].ty,
                },
            )
        } else if two_marked(fs) {
            Err(DerefError::TooManyMarked)
        } else if none_marked(fs) {
            Err(DerefError::UnnamedNeedsMark)
        } else {
            let k = first_marked_from(fs, 0)->Some_0;
            Ok(
                DerefImplV {
                    ident: s.ident,
                    generics: s.generics,
                    target: DerefTargetV::Pos(k as usize),
                    ty: fs[k].ty,
                },
            )
        },
        FieldsV::Named(fs) => if two_marked(fs) {
            Err(DerefError::TooManyMarked)
        } else if none_marked(fs) {
            Err(DerefError::NamedNeedsMark)
        } else {
            let k = first_marked_from(fs, 0)->Some_0;
            Ok(
                DerefImplV {
                    ident: s.ident,
                    generics: s.generics,
                    target: DerefTargetV::Name(fs[k].ident->Some_0),
                    ty: fs[k].ty,
                },
            )
        },
        FieldsV::Unit => Err(DerefError::UnitFields),
    }
}

/// The first marked field, where exactly the scan finds it, or the error of
/// a second mark.
fn find_single_marked(fs: &Vec<crate::ast::FieldDef>) -> (r: Result<Option<usize>, DerefError>)
    ensures
        r matches Err(e) ==> e == DerefError::TooManyMarked && two_marked(
            crate::ast::fields_seq_view(fs@),
        ),
        r matches Ok(o) ==> !two_marked(crate::ast::fields_seq_view(fs@)) && match o {
            Some(k) => (k as int) < fs@.len() && first_marked_from(
                crate::ast::fields_seq_view(fs@),
                0,
            ) == Some(k as int),
            None => none_marked(crate::ast::fields_seq_view(fs@)),
        },
{
    let ghost fsv = crate::ast::fields_seq_view(fs@);
    let mut first: Option<usize> = None;
    let mut i: usize = 0;
    while i < fs.len()
        invariant
            fsv == crate::ast::fields_seq_view(fs@),
            fsv.len() == fs@.len(),
            i <= fs@.len(),
            match first {
                Some(k) => k < i && is_marked(fsv[k as int]) && (forall|j: int|
                    0 <= j < i && j != k ==> !is_marked(#[trigger] fsv[j])),
                None => forall|j: int| 0 <= j < i ==> !is_marked(#[trigger] fsv[j]),
            },
        decreases fs@.len() - i,
    {
        proof {
            assert(fsv[i as int] == fs@[i as int]@);
        }
        if has_attr_named(&fs[i].attrs, "deref") {
            match first {
                Some(k) => {
                    proof {
                        assert(is_marked(fsv[k as int]) && is_marked(fsv[i as int]));
                    }
                    return Err(DerefError::TooManyMarked);
                },
                None => {
                    first = Some(i);
                },
            }
        }
        i += 1;
    }
    proof {
        match first {
            Some(k) => {
                lemma_first_marked_at(fsv, k as int);
                assert(!two_marked(fsv)) by {
                    if two_marked(fsv) {
                        let (a, b) = choose|a: int, b: int|
                            0 <= a < b < fsv.len() && is_marked(#[trigger] fsv[a]) && is_marked(
                                #[trigger] fsv[b],
                            );
                        assert(a != k || b != k);
                    }
                }
            },
            None => {
                assert(!two_marked(fsv)) by {
                    if two_marked(fsv) {
                        let (a, b) = choose|a: int, b: int|
                            0 <= a < b < fsv.len() && is_marked(#[trigger] fsv[a]) && is_marked(
                                #[trigger] fsv[b],
                            );
                    }
                }
            },
        }
    }
    Ok(first)
}

/// Synthesizes the dereference implementation, exactly as `expand_spec`
/// states, with each error exactly where it states one. The caller hands in
/// named fields that each carry a name, and at least one field where the
/// fields are a tuple.
pub fn expand(struct_: &StructDef) -> (r: Result<DerefImpl, DerefError>)
    requires
        struct_@.fields.wf(),
        struct_@.fields matches FieldsV::Unnamed(fs) ==> fs.len() > 0,
    ensures
        r matches Ok(v) ==> expand_spec(struct_@) == Ok::<DerefImplV, DerefError>(v@),
        r matches Err(e) ==> expand_spec(struct_@) == Err::<DerefImplV, DerefError>(e),
{
    match &struct_.fields {
        Fields::Unnamed(fs) => {
            let ghost fsv = crate::ast::fields_seq_view(fs@);
            if fs.len() == 1 {
                proof {
                    assert(fsv[0] == fs@[0]@);
                }
                let r = DerefImpl {
                    ident: struct_.ident.clone(),
                    generics: struct_.generics.clone_generics(),
                    target: DerefTarget::Pos(0),
                    ty: fs[0].ty.clone_ty(),
                };
                proof {
                    assert(r@ =~~= expand_spec(struct_@)->Ok_0);
                }
                return Ok(r);
            }
            let pos = match find_single_marked(fs) {
                Err(e) => {
                    return Err(e);
                },
                Ok(None) => {
                    return Err(DerefError::UnnamedNeedsMark);
                },
                Ok(Some(k)) => k,
            };
            proof {
                if none_marked(fsv) {
                    lemma_first_marked_none(fsv, 0);
                }
                assert(fsv[pos as int] == fs@[pos as int]@);
            }
            let r = DerefImpl {
                ident: struct_.ident.clone(),
                generics: struct_.generics.clone_generics(),
                target: DerefTarget::Pos(pos),
                ty: fs[pos].ty.clone_ty(),
            };
            proof {
                assert(r@ =~~= expand_spec(struct_@)->Ok_0);
            }
            Ok(r)
        },
        Fields::Named(fs) => {
            let ghost fsv = crate::ast::fields_seq_view(fs@);
            let pos = match find_single_marked(fs) {
                Err(e) => {
                    return Err(e);
                },
                Ok(None) => {
                    return Err(DerefError::NamedNeedsMark);
                },
                Ok(Some(k)) => k,
            };
            proof {
                if none_marked(fsv) {
                    lemma_first_marked_none(fsv, 0);
                }
                assert(fsv[pos as int] == fs@[pos as int]@);
                assert(fsv[pos as int].ident is Some);
            }
            let name = match &fs[pos].ident {
                Some(n) => n.clone(),
                None => unreached(),
            };
            let r = DerefImpl {
                ident: struct_.ident.clone(),
                generics: struct_.generics.clone_generics(),
                target: DerefTarget::Name(name),
                ty: fs[pos].ty.clone_ty(),
            };
            proof {
                assert(r@ =~~= expand_spec(struct_@)->Ok_0);
            }
            Ok(r)
        },
        Fields::Unit => Err(DerefError::UnitFields),
    }
}

} // verus!
