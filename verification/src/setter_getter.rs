//! The expansion behind the setter and getter derives: one accessor per
//! chosen field of a structure with named fields. By default every field is
//! chosen; an `exclude_...` attribute takes its field out, and as soon as any
//! field carries an `include_...` attribute, only the marked fields are
//! chosen. Mixing the two marks is refused.

use vstd::prelude::*;
use crate::ast::{Fields, FieldV, StructDef, TyV, ident_is};
use crate::output::{MethodDef, MethodV, InherentImpl, InherentImplV, methods_views};
use crate::default::{has_attr, has_attr_named};
use crate::shared::fast_impl;

verus! {

/// Which accessor the expansion synthesizes.
#[derive(Debug, PartialEq, Eq, Clone, Copy)]
pub enum AccessorKind {
    Setters,
    Getters,
}

/// The attribute that takes a field into the chosen set.
pub open spec fn include_name(kind: AccessorKind) -> Seq<char> {
    match kind {
        AccessorKind::Setters => "include_setter"@,
        AccessorKind::Getters => "include_getter"@,
    }
}

/// The attribute that takes a field out of the chosen set.
pub open spec fn exclude_name(kind: AccessorKind) -> Seq<char> {
    match kind {
        AccessorKind::Setters => "exclude_setter"@,
        AccessorKind::Getters => "exclude_getter"@,
    }
}

/// The field carries the include mark.
pub open spec fn is_included(f: FieldV, kind: AccessorKind) -> bool {
    has_attr(f.attrs, include_name(kind))
}

/// The field carries the exclude mark.
pub open spec fn is_excluded(f: FieldV, kind: AccessorKind) -> bool {
    has_attr(f.attrs, exclude_name(kind))
}

/// The marks conflict: one field carries both, or one field is included
/// while another is excluded.
pub open spec fn conflict(fs: Seq<FieldV>, kind: AccessorKind) -> bool {
    ||| exists|i: int|
        0 <= i < fs.len() && is_included(#[trigger] fs[i], kind) && is_excluded(fs[i], kind)
    ||| (exists|i: int| 0 <= i < fs.len() && is_included(#[trigger] fs[i], kind)) && (exists|j: int|
        0 <= j < fs.len() && is_excluded(#[trigger] fs[j], kind))
}

/// The fields that get an accessor: the included ones where any field is
/// included, every field not excluded otherwise.
pub open spec fn chosen(fs: Seq<FieldV>, kind: AccessorKind) -> Seq<FieldV> {
    if exists|i: int| 0 <= i < fs.len() && is_included(#[trigger] fs[i], kind) {
        fs.filter(|f: FieldV| is_included(f, kind))
    } else {
        fs.filter(|f: FieldV| !is_excluded(f, kind))
    }
}

/// The accessor synthesized for one field: its name is the prefix joined to
/// the field's name by an underscore.
pub open spec fn mk_method(f: FieldV, kind: AccessorKind) -> MethodV {
    match kind {
        AccessorKind::Setters => MethodV::Setter {
            name: "set_"@ + f.ident->Some_0,
            field: f.ident->Some_0,
            ty: f.ty,
        },
        AccessorKind::Getters => MethodV::Getter {
            name: "get_"@ + f.ident->Some_0,
            field: f.ident->Some_0,
            ty: f.ty,
        },
    }
}

/// The accessors of the chosen fields, in field order.
pub open spec fn methods_spec(fs: Seq<FieldV>, kind: AccessorKind) -> Seq<MethodV> {
    chosen(fs, kind).map_values(|f: FieldV| mk_method(f, kind))
}

/// What stops the expansion.
#[derive(Debug, PartialEq, Eq)]
pub enum AccessorError {
    /// The structure's fields are not named.
    NotNamedFields,
    /// A field is both included and excluded, or one field is included while
    /// another is excluded.
    ConflictingAttrs,
}

/// What the expansion synthesizes: an inherent `impl` with one accessor per
/// chosen field, or the error that stops it.
pub open spec fn expand_spec(s: crate::ast::StructV, kind: AccessorKind) -> Result<
    InherentImplV,
    AccessorError,
> {
    match s.fields {
        FieldsV::Named(fs) => if conflict(fs, kind) {
            Err(AccessorError::ConflictingAttrs)
        } else {
            Ok(
                InherentImplV {
                    ident: s.ident,
                    generics: s.generics,
                    methods: methods_spec(fs, kind),
                },
            )
        },
        _ => Err(AccessorError::NotNamedFields),
    }
}

use crate::ast::FieldsV;

/// The accessor of one field, built.
fn build_method(f: &crate::ast::FieldDef, kind: AccessorKind) -> (r: MethodDef)
    requires
        f@.ident is Some,
    ensures
        r@ == mk_method(f@, kind),
{
    let ident = match &f.ident {
        Some(s) => s,
        None => vstd::pervasive::unreached(),
    };
    let mut name = String::from_str(
        match kind {
            AccessorKind::Setters => "set_",
            AccessorKind::Getters => "get_",
        },
    );
    name.append(ident.as_str());
    match kind {
        AccessorKind::Setters => MethodDef::Setter {
            name,
            field: ident.clone(),
            ty: f.ty.clone_ty(),
        },
        AccessorKind::Getters => MethodDef::Getter {
            name,
            field: ident.clone(),
            ty: f.ty.clone_ty(),
        },
    }
}

/// Synthesizes the accessors for a structure, exactly as `expand_spec`
/// states, with each error exactly where it states one. The caller hands in
/// named fields that each carry a name.
pub fn expand(struct_: &StructDef, kind: AccessorKind) -> (r: Result<InherentImpl, AccessorError>)
    requires
        struct_@.fields.wf(),
    ensures
        r matches Ok(v) ==> expand_spec(struct_@, kind) == Ok::<InherentImplV, AccessorError>(v@),
        r matches Err(e) ==> expand_spec(struct_@, kind) == Err::<InherentImplV, AccessorError>(e),
{
    let fields = match &struct_.fields {
        Fields::Named(fs) => fs,
        _ => {
            return Err(AccessorError::NotNamedFields);
        },
    };
    let ghost fsv = crate::ast::fields_seq_view(fields@);
    let ghost inc = |f: FieldV| is_included(f, kind);
    let ghost exc = |f: FieldV| !is_excluded(f, kind);

    let mut is_acc_default = true;
    let mut acc_every: Vec<MethodDef> = Vec::new();
    let mut is_glob_exclude = false;
    let mut is_glob_include = false;

    let mut i: usize = 0;
    while i < fields.len()
        invariant
            struct_@.fields.wf(),
            struct_@.fields == FieldsV::Named(fsv),
            fsv == crate::ast::fields_seq_view(fields@),
            fsv.len() == fields@.len(),
            i <= fields@.len(),
            inc == (|f: FieldV| is_included(f, kind)),
            exc == (|f: FieldV| !is_excluded(f, kind)),
            is_glob_include == exists|j: int|
                0 <= j < i && is_included(#[trigger] fsv[j], kind),
            is_glob_exclude == exists|j: int|
                0 <= j < i && is_excluded(#[trigger] fsv[j], kind),
            is_acc_default == !is_glob_include,
            !(is_glob_include && is_glob_exclude),
            forall|j: int|
                0 <= j < i ==> !(is_included(#[trigger] fsv[j], kind) && is_excluded(
                    fsv[j],
                    kind,
                )),
            methods_views(acc_every@) == if is_glob_include {
                fsv.take(i as int).filter(inc).map_values(|f: FieldV| mk_method(f, kind))
            } else {
                fsv.take(i as int).filter(exc).map_values(|f: FieldV| mk_method(f, kind))
            },
        decreases fields@.len() - i,
    {
        let f = &fields[i];
        proof {
            assert(fsv[i as int] == f@);
            assert(fsv[i as int].ident is Some);
        }
        let is_include = has_attr_named(
            &f.attrs,
            match kind {
                AccessorKind::Setters => "include_setter",
                AccessorKind::Getters => "include_getter",
            },
        );
        let is_exclude = has_attr_named(
            &f.attrs,
            match kind {
                AccessorKind::Setters => "exclude_setter",
                AccessorKind::Getters => "exclude_getter",
            },
        );
        proof {
            assert(is_include == is_included(fsv[i as int], kind));
            assert(is_exclude == is_excluded(fsv[i as int], kind));
        }
        let ghost prev = fsv.take(i as int);
        proof {
            assert(fsv.take(i + 1 as int) =~= prev + seq![fsv[i as int]]);
        }
        if is_include && is_exclude {
            return Err(AccessorError::ConflictingAttrs);
        } else if is_glob_include && is_glob_exclude {
            return Err(AccessorError::ConflictingAttrs);
        } else if is_include && is_glob_exclude {
            return Err(AccessorError::ConflictingAttrs);
        } else if is_exclude && is_glob_include {
            return Err(AccessorError::ConflictingAttrs);
        } else if is_include {
            is_glob_include = true;
            if is_acc_default {
                acc_every = Vec::new();
                is_acc_default = false;
            }
            let m = build_method(f, kind);
            let ghost prev_acc = acc_every@;
            acc_every.push(m);
            proof {
                reveal_with_fuel(Seq::<FieldV>::filter, 2);
                Seq::filter_distributes_over_add(prev, seq![fsv[i as int]], inc);
                assert(seq![fsv[i as int]].filter(inc) =~= seq![fsv[i as int]]);
                if prev_acc.len() == 0 && prev.filter(inc).len() > 0 {
                    prev.lemma_filter_pred(inc, 0);
                    let e = prev.filter(inc)[0];
                    assert(prev.filter(inc).contains(e));
                    prev.lemma_filter_contains_rev(inc, e);
                    let k = choose|k: int| 0 <= k < prev.len() && prev[k] == e;
                    assert(is_included(fsv[k], kind));
                }
                assert(methods_views(prev_acc.push(m)) =~= methods_views(prev_acc).push(m@));
                assert((prev.filter(inc) + seq![fsv[i as int]]).map_values(
                    |ff: FieldV| mk_method(ff, kind),
                ) =~= prev.filter(inc).map_values(|ff: FieldV| mk_method(ff, kind)).push(
                    mk_method(fsv[i as int], kind),
                ));
                assert(methods_views(acc_every@) == fsv.take(i + 1 as int).filter(
                    inc,
                ).map_values(|ff: FieldV| mk_method(ff, kind)));
            }
        } else if is_exclude {
            is_glob_exclude = true;
            proof {
                reveal_with_fuel(Seq::<FieldV>::filter, 2);
                Seq::filter_distributes_over_add(prev, seq![fsv[i as int]], exc);
                assert(seq![fsv[i as int]].filter(exc) =~= Seq::<FieldV>::empty());
                assert(fsv.take(i + 1 as int).filter(exc) =~= prev.filter(exc));
                if is_glob_include {
                    Seq::filter_distributes_over_add(prev, seq![fsv[i as int]], inc);
                    assert(seq![fsv[i as int]].filter(inc) =~= Seq::<FieldV>::empty());
                    assert(fsv.take(i + 1 as int).filter(inc) =~= prev.filter(inc));
                }
            }
        } else {
            let ghost prev_acc = acc_every@;
            if is_acc_default {
                let m = build_method(f, kind);
                acc_every.push(m);
                proof {
                    reveal_with_fuel(Seq::<FieldV>::filter, 2);
                    Seq::filter_distributes_over_add(prev, seq![fsv[i as int]], exc);
                    assert(seq![fsv[i as int]].filter(exc) =~= seq![fsv[i as int]]);
                    assert(methods_views(prev_acc.push(m)) =~= methods_views(prev_acc).push(m@));
                    assert((prev.filter(exc) + seq![fsv[i as int]]).map_values(
                        |ff: FieldV| mk_method(ff, kind),
                    ) =~= prev.filter(exc).map_values(|ff: FieldV| mk_method(ff, kind)).push(
                        mk_method(fsv[i as int], kind),
                    ));
                    assert(methods_views(acc_every@) == fsv.take(i + 1 as int).filter(
                        exc,
                    ).map_values(|ff: FieldV| mk_method(ff, kind)));
                }
            } else {
                proof {
                    reveal_with_fuel(Seq::<FieldV>::filter, 2);
                    Seq::filter_distributes_over_add(prev, seq![fsv[i as int]], inc);
                    assert(seq![fsv[i as int]].filter(inc) =~= Seq::<FieldV>::empty());
                    assert(fsv.take(i + 1 as int).filter(inc) =~= prev.filter(inc));
                }
            }
        }
        i += 1;
    }
    proof {
        assert(fsv.take(i as int) =~= fsv);
        assert(!conflict(fsv, kind));
    }
    let r = fast_impl(struct_, acc_every);
    proof {
        assert(r@ =~~= expand_spec(struct_@, kind)->Ok_0);
    }
    Ok(r)
}

/// Synthesizes the setters of a structure: `expand` for the setter kind.
pub fn expand_setter(struct_: &StructDef) -> (r: Result<InherentImpl, AccessorError>)
    requires
        struct_@.fields.wf(),
    ensures
        r matches Ok(v) ==> expand_spec(struct_@, AccessorKind::Setters) == Ok::<
            InherentImplV,
            AccessorError,
        >(v@),
        r matches Err(e) ==> expand_spec(struct_@, AccessorKind::Setters) == Err::<
            InherentImplV,
            AccessorError,
        >(e),
{
    expand(struct_, AccessorKind::Setters)
}

/// Synthesizes the getters of a structure: `expand` for the getter kind.
pub fn expand_getter(struct_: &StructDef) -> (r: Result<InherentImpl, AccessorError>)
    requires
        struct_@.fields.wf(),
    ensures
        r matches Ok(v) ==> expand_spec(struct_@, AccessorKind::Getters) == Ok::<
            InherentImplV,
            AccessorError,
        >(v@),
        r matches Err(e) ==> expand_spec(struct_@, AccessorKind::Getters) == Err::<
            InherentImplV,
            AccessorError,
        >(e),
{
    expand(struct_, AccessorKind::Getters)
}

} // verus!
