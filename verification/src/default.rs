//! The expansion behind the derive of the standard `Default`: it fills every
//! field with the expression of its `default` attribute, or with the
//! standard default of the field's type, and for an enumeration it picks the
//! variant marked `default`. Every type parameter gets a `Default` bound
//! where it lacks one.

use vstd::prelude::*;
use vstd::pervasive::unreached;
use crate::ast::{
    Attr, AttrV, FieldDef, FieldV, Fields, FieldsV, ItemDef, ItemV, VariantV, GenericsDef,
    GenericParamDef, GenericParamV, TypeParamDef, TypeParamV, ident_is, clone_opt_string,
    clone_strings,
};
use crate::output::{
    DefaultExpr, DefaultExprV, FieldDefault, FieldDefaultV, DefaultBody, DefaultBodyV,
    DefaultImpl, DefaultImplV, defaults_views,
};

verus! {

/// The first attribute with the given name.
pub open spec fn find_attr(attrs: Seq<AttrV>, name: Seq<char>) -> Option<AttrV>
    decreases attrs.len(),
{
    if attrs.len() == 0 {
        None
    } else if attrs[0].name == name {
        Some(attrs[0])
    } else {
        find_attr(attrs.drop_first(), name)
    }
}

proof fn lemma_find_attr_at(attrs: Seq<AttrV>, name: Seq<char>, i: int)
    requires
        0 <= i < attrs.len(),
        attrs[i].name == name,
        forall|j: int| 0 <= j < i ==> #[trigger] attrs[j].name != name,
    ensures
        find_attr(attrs, name) == Some(attrs[i]),
    decreases i,
{
    if i > 0 {
        lemma_find_attr_at(attrs.drop_first(), name, i - 1);
    }
}

proof fn lemma_find_attr_none(attrs: Seq<AttrV>, name: Seq<char>)
    requires
        forall|j: int| 0 <= j < attrs.len() ==> #[trigger] attrs[j].name != name,
    ensures
        find_attr(attrs, name) is None,
    decreases attrs.len(),
{
    if attrs.len() > 0 {
        lemma_find_attr_none(attrs.drop_first(), name);
    }
}

/// Some attribute with the given name is present.
pub open spec fn has_attr(attrs: Seq<AttrV>, name: Seq<char>) -> bool {
    exists|i: int| 0 <= i < attrs.len() && #[trigger] attrs[i].name == name
}

/// What fills a field: the expression of its first `default` attribute, or
/// the standard default of its type.
pub open spec fn default_expr_spec(f: FieldV) -> DefaultExprV {
    match find_attr(f.attrs, "default"@) {
        Some(a) => DefaultExprV::Given(a.tokens->Some_0),
        None => DefaultExprV::DefaultOf(f.ty),
    }
}

/// The field's `default` attribute, where there is one, carries an
/// expression.
pub open spec fn field_readable(f: FieldV) -> bool {
    find_attr(f.attrs, "default"@) matches Some(a) ==> a.tokens is Some
}

/// The default expression of one field, as `default_expr_spec` states. The
/// caller does not hand in a field whose `default` attribute is bare.
pub fn get_default_value(field: &FieldDef) -> (r: DefaultExpr)
    requires
        field_readable(field@),
    ensures
        r@ == default_expr_spec(field@),
{
    let mut i: usize = 0;
    while i < field.attrs.len()
        invariant
            field_readable(field@),
            i <= field@.attrs.len(),
            field@.attrs.len() == field.attrs@.len(),
            forall|j: int| 0 <= j < i ==> #[trigger] field@.attrs[j].name != "default"@,
        decreases field.attrs@.len() - i,
    {
        if ident_is(&field.attrs[i].name, "default") {
            proof {
                lemma_find_attr_at(field@.attrs, "default"@, i as int);
            }
            match &field.attrs[i].tokens {
                Some(t) => {
                    return DefaultExpr::Given(t.clone());
                },
                None => {
                    return unreached();
                },
            }
        }
        i += 1;
    }
    proof {
        lemma_find_attr_none(field@.attrs, "default"@);
    }
    DefaultExpr::DefaultOf(field.ty.clone_ty())
}

/// Every `default` attribute among the fields carries an expression.
pub open spec fn fields_readable(fs: Seq<FieldV>) -> bool {
    forall|i: int| 0 <= i < fs.len() ==> field_readable(#[trigger] fs[i])
}

/// The default expressions of a field list, in order, each field keeping its
/// name.
pub open spec fn defaults_spec(fs: Seq<FieldV>) -> Seq<FieldDefaultV> {
    Seq::new(fs.len(), |i: int| FieldDefaultV { ident: fs[i].ident, value: default_expr_spec(fs[i]) })
}

/// How a default body fills the fields of each shape.
pub open spec fn body_spec(f: FieldsV) -> DefaultBodyV {
    match f {
        FieldsV::Named(fs) => DefaultBodyV::Named(defaults_spec(fs)),
        FieldsV::Unnamed(fs) => DefaultBodyV::Unnamed(defaults_spec(fs)),
        FieldsV::Unit => DefaultBodyV::Unit,
    }
}

/// Every `default` attribute among these fields carries an expression.
pub open spec fn body_readable(f: FieldsV) -> bool {
    match f {
        FieldsV::Named(fs) => fields_readable(fs),
        FieldsV::Unnamed(fs) => fields_readable(fs),
        FieldsV::Unit => true,
    }
}

fn build_defaults(fs: &Vec<FieldDef>) -> (r: Vec<FieldDefault>)
    requires
        fields_readable(crate::ast::fields_seq_view(fs@)),
    ensures
        defaults_views(r@) == defaults_spec(crate::ast::fields_seq_view(fs@)),
{
    let ghost fsv = crate::ast::fields_seq_view(fs@);
    let mut out: Vec<FieldDefault> = Vec::new();
    let mut i: usize = 0;
    while i < fs.len()
        invariant
            fields_readable(fsv),
            fsv == crate::ast::fields_seq_view(fs@),
            fsv.len() == fs@.len(),
            i <= fs@.len(),
            out@.len() == i as int,
            forall|j: int| 0 <= j < i ==> #[trigger] out@[j]@ == defaults_spec(fsv)[j],
        decreases fs@.len() - i,
    {
        proof {
            assert(fsv[i as int] == fs@[i as int]@);
        }
        let value = get_default_value(&fs[i]);
        out.push(FieldDefault { ident: clone_opt_string(&fs[i].ident), value });
        i += 1;
    }
    proof {
        assert(defaults_views(out@) =~= defaults_spec(fsv));
    }
    out
}

/// The default body for a field shape, as `body_spec` states.
pub fn build_body(fields: &Fields) -> (r: DefaultBody)
    requires
        body_readable(fields@),
    ensures
        r@ == body_spec(fields@),
{
    match fields {
        Fields::Named(fs) => DefaultBody::Named(build_defaults(fs)),
        Fields::Unnamed(fs) => DefaultBody::Unnamed(build_defaults(fs)),
        Fields::Unit => DefaultBody::Unit,
    }
}

/// Some bound in the list is exactly `Default`.
pub open spec fn has_default_bound(bounds: Seq<Seq<char>>) -> bool {
    exists|i: int| 0 <= i < bounds.len() && #[trigger] bounds[i] == "Default"@
}

/// A type parameter gains a `Default` bound where it lacks one; other
/// parameters stay as they are.
pub open spec fn param_with_default(p: GenericParamV) -> GenericParamV {
    match p {
        GenericParamV::Type(tp) => GenericParamV::Type(
            TypeParamV {
                ident: tp.ident,
                bounds: if has_default_bound(tp.bounds) {
                    tp.bounds
                } else {
                    tp.bounds.push("Default"@)
                },
            },
        ),
        other => other,
    }
}

/// Every type parameter with a `Default` bound added where it lacks one.
pub open spec fn generics_with_default(g: Seq<GenericParamV>) -> Seq<GenericParamV> {
    Seq::new(g.len(), |i: int| param_with_default(g[i]))
}

/// Adds a `Default` bound to each type parameter that lacks one, as
/// `generics_with_default` states.
pub fn add_default_bounds(generics: &GenericsDef) -> (r: GenericsDef)
    ensures
        r@ == generics_with_default(generics@),
{
    let mut out: Vec<GenericParamDef> = Vec::new();
    let mut i: usize = 0;
    while i < generics.params.len()
        invariant
            i <= generics.params@.len(),
            out@.len() == i as int,
            forall|j: int| 0 <= j < i ==> #[trigger] out@[j]@ == param_with_default(
                generics.params@[j]@,
            ),
        decreases generics.params@.len() - i,
    {
        let p = &generics.params[i];
        let fixed: GenericParamDef = match p {
            GenericParamDef::Type(tp) => {
                let mut found = false;
                let mut k: usize = 0;
                while k < tp.bounds.len()
                    invariant
                        k <= tp.bounds@.len(),
                        found == exists|j: int|
                            0 <= j < k && #[trigger] tp.bounds@[j]@ == "Default"@,
                    decreases tp.bounds@.len() - k,
                {
                    if ident_is(&tp.bounds[k], "Default") {
                        found = true;
                    }
                    k += 1;
                }
                let mut bounds = clone_strings(&tp.bounds);
                proof {
                    if found {
                        let j = choose|j: int|
                            0 <= j < tp.bounds@.len() && #[trigger] tp.bounds@[j]@ == "Default"@;
                        assert(tp@.bounds[j] == "Default"@);
                    }
                    if has_default_bound(tp@.bounds) {
                        let j = choose|j: int|
                            0 <= j < tp@.bounds.len() && #[trigger] tp@.bounds[j] == "Default"@;
                        assert(tp.bounds@[j]@ == "Default"@);
                    }
                    assert(found == has_default_bound(tp@.bounds));
                }
                if !found {
                    bounds.push(String::from_str("Default"));
                }
                let fixed = GenericParamDef::Type(
                    TypeParamDef { ident: tp.ident.clone(), bounds },
                );
                proof {
                    assert(fixed@->Type_0.bounds =~= param_with_default(p@)->Type_0.bounds);
                    assert(fixed@ =~~= param_with_default(p@));
                }
                fixed
            },
            GenericParamDef::Lifetime(l) => GenericParamDef::Lifetime(l.clone()),
            GenericParamDef::Const(c) => GenericParamDef::Const(c.clone()),
        };
        out.push(fixed);
        i += 1;
    }
    let r = GenericsDef { params: out };
    proof {
        assert(r@ =~= generics_with_default(generics@));
    }
    r
}

/// What stops the expansion: an enumeration without a variant marked
/// `default`.
#[derive(Debug, PartialEq, Eq)]
pub enum DefaultError {
    MissingDefaultVariant,
}

/// The first variant marked with a `default` attribute.
pub open spec fn find_default_variant(vs: Seq<VariantV>) -> Option<VariantV>
    decreases vs.len(),
{
    if vs.len() == 0 {
        None
    } else if has_attr(vs[0].attrs, "default"@) {
        Some(vs[0])
    } else {
        find_default_variant(vs.drop_first())
    }
}

proof fn lemma_find_variant_at(vs: Seq<VariantV>, i: int)
    requires
        0 <= i < vs.len(),
        has_attr(vs[i].attrs, "default"@),
        forall|j: int| 0 <= j < i ==> !has_attr(#[trigger] vs[j].attrs, "default"@),
    ensures
        find_default_variant(vs) == Some(vs[i]),
    decreases i,
{
    if i > 0 {
        lemma_find_variant_at(vs.drop_first(), i - 1);
    }
}

proof fn lemma_find_variant_none(vs: Seq<VariantV>)
    requires
        forall|j: int| 0 <= j < vs.len() ==> !has_attr(#[trigger] vs[j].attrs, "default"@),
    ensures
        find_default_variant(vs) is None,
    decreases vs.len(),
{
    if vs.len() > 0 {
        lemma_find_variant_none(vs.drop_first());
    }
}

/// Whether some attribute in the list has the given name.
pub fn has_attr_named(attrs: &Vec<Attr>, name: &str) -> (r: bool)
    ensures
        r == has_attr(crate::ast::attrs_views(attrs@), name@),
{
    let mut i: usize = 0;
    while i < attrs.len()
        invariant
            i <= attrs@.len(),
            forall|j: int| 0 <= j < i ==> #[trigger] attrs@[j]@.name != name@,
        decreases attrs@.len() - i,
    {
        if ident_is(&attrs[i].name, name) {
            proof {
                assert(crate::ast::attrs_views(attrs@)[i as int].name == name@);
            }
            return true;
        }
        i += 1;
    }
    proof {
        assert forall|j: int| 0 <= j < attrs@.len() implies #[trigger] crate::ast::attrs_views(
            attrs@,
        )[j].name != name@ by {
            assert(attrs@[j]@.name != name@);
        }
    }
    false
}

/// Every `default` attribute that the expansion will read carries an
/// expression where one is required.
pub open spec fn expand_readable(item: ItemV) -> bool {
    match item {
        ItemV::Struct(s) => body_readable(s.fields),
        ItemV::Enum(e) => find_default_variant(e.variants) matches Some(v) ==> body_readable(
            v.fields,
        ),
    }
}

/// What the expansion synthesizes: for a structure, a default body over its
/// fields; for an enumeration, the body of its first variant marked
/// `default`, or the error where no variant is marked. Type parameters gain
/// a `Default` bound.
pub open spec fn expand_spec(item: ItemV) -> Result<DefaultImplV, DefaultError> {
    match item {
        ItemV::Struct(s) => Ok(
            DefaultImplV {
                ident: s.ident,
                generics: generics_with_default(s.generics),
                variant: None,
                body: body_spec(s.fields),
            },
        ),
        ItemV::Enum(e) => match find_default_variant(e.variants) {
            None => Err(DefaultError::MissingDefaultVariant),
            Some(v) => Ok(
                DefaultImplV {
                    ident: e.ident,
                    generics: generics_with_default(e.generics),
                    variant: Some(v.ident),
                    body: body_spec(v.fields),
                },
            ),
        },
    }
}

/// Synthesizes the default implementation for a declaration, exactly as
/// `expand_spec` states, with the error exactly where it states one. The
/// caller does not hand in a bare `default` attribute where an expression is
/// required.
pub fn expand(item: &ItemDef) -> (r: Result<DefaultImpl, DefaultError>)
    requires
        expand_readable(item@),
    ensures
        r matches Ok(d) ==> expand_spec(item@) == Ok::<DefaultImplV, DefaultError>(d@),
        r matches Err(e) ==> expand_spec(item@) == Err::<DefaultImplV, DefaultError>(e),
{
    match item {
        ItemDef::Struct(s) => {
            let body = build_body(&s.fields);
            let r = DefaultImpl {
                ident: s.ident.clone(),
                generics: add_default_bounds(&s.generics),
                variant: None,
                body,
            };
            proof {
                assert(r@ =~~= expand_spec(item@)->Ok_0);
            }
            Ok(r)
        },
        ItemDef::Enum(e) => {
            let ghost vsv = Seq::new(e.variants@.len(), |i: int| e.variants@[i]@);
            let mut i: usize = 0;
            while i < e.variants.len()
                invariant
                    expand_readable(item@),
                    item@ == ItemDef::Enum(*e)@,
                    vsv == item@->Enum_0.variants,
                    vsv.len() == e.variants@.len(),
                    i <= e.variants@.len(),
                    forall|j: int| 0 <= j < i ==> !has_attr(#[trigger] vsv[j].attrs, "default"@),
                decreases e.variants@.len() - i,
            {
                let v = &e.variants[i];
                if has_attr_named(&v.attrs, "default") {
                    proof {
                        assert(vsv[i as int] == v@);
                        lemma_find_variant_at(vsv, i as int);
                    }
                    let body = build_body(&v.fields);
                    let r = DefaultImpl {
                        ident: e.ident.clone(),
                        generics: add_default_bounds(&e.generics),
                        variant: Some(v.ident.clone()),
                        body,
                    };
                    proof {
                        assert(r@ =~~= expand_spec(item@)->Ok_0);
                    }
                    return Ok(r);
                }
                i += 1;
            }
            proof {
                lemma_find_variant_none(vsv);
            }
            Err(DefaultError::MissingDefaultVariant)
        },
    }
}

} // verus!
