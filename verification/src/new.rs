//! The expansion behind the constructor derive: a `new` method with one
//! parameter per field, in field order. Named fields lend their names to the
//! parameters; tuple fields are numbered `arg_1`, `arg_2` and so on.

use vstd::prelude::*;
use vstd::pervasive::unreached;
use crate::ast::{Fields, FieldsV, FieldV, StructDef, StructV, FieldDef};
use crate::output::{
    ParamDef, ParamV, MethodDef, MethodV, InherentImpl, InherentImplV, params_views,
    methods_views,
};
use crate::shared::fast_impl;

verus! {

/// The decimal digit character of one digit value.
pub open spec fn digit_char(d: int) -> char
    recommends
        0 <= d <= 9,
{
    (48 + d) as char
}

/// The decimal text of a number, most significant digit first.
pub open spec fn dec_of(n: int) -> Seq<char>
    recommends
        n >= 0,
    decreases n,
{
    if n < 10 {
        seq![digit_char(n)]
    } else {
        dec_of(n / 10).push(digit_char(n % 10))
    }
}

/// The one-character text of a digit, as `digit_char` states it. The caller
/// hands in a single digit.
fn digit_str(d: usize) -> (r: &'static str)
    requires
        d <= 9,
    ensures
        r@ == seq![digit_char(d as int)],
{
    let r: &'static str = match d {
        0 => "0",
        1 => "1",
        2 => "2",
        3 => "3",
        4 => "4",
        5 => "5",
        6 => "6",
        7 => "7",
        8 => "8",
        _ => "9",
    };
    proof {
        reveal_strlit("0");
        reveal_strlit("1");
        reveal_strlit("2");
        reveal_strlit("3");
        reveal_strlit("4");
        reveal_strlit("5");
        reveal_strlit("6");
        reveal_strlit("7");
        reveal_strlit("8");
        reveal_strlit("9");
        assert(r@ =~= seq![digit_char(d as int)]);
    }
    r
}

/// The decimal text of a number, as `dec_of` states it.
pub fn usize_to_string(n: usize) -> (r: String)
    ensures
        r@ == dec_of(n as int),
    decreases n,
{
    if n < 10 {
        String::from_str(digit_str(n))
    } else {
        let mut s = usize_to_string(n / 10);
        s.append(digit_str(n % 10));
        proof {
            assert(s@ =~= dec_of(n as int));
        }
        s
    }
}

/// The parameter name of a tuple field: `arg_` and the field's place counted
/// from one.
pub open spec fn arg_name(i: int) -> Seq<char> {
    "arg_"@ + dec_of(i + 1)
}

/// The constructor parameters of named fields: each field's own name and
/// type.
pub open spec fn params_named(fs: Seq<FieldV>) -> Seq<ParamV> {
    Seq::new(fs.len(), |i: int| ParamV { name: fs[i].ident->Some_0, ty: fs[i].ty })
}

/// The constructor parameters of tuple fields: numbered names, each field's
/// type.
pub open spec fn params_unnamed(fs: Seq<FieldV>) -> Seq<ParamV> {
    Seq::new(fs.len(), |i: int| ParamV { name: arg_name(i), ty: fs[i].ty })
}

/// What stops the expansion: a structure without fields gets no constructor.
#[derive(Debug, PartialEq, Eq)]
pub enum NewError {
    UnitFields,
}

/// What the expansion synthesizes: an inherent `impl` with one `new` method
/// whose parameters fill every field in order, or the error that stops it.
pub open spec fn expand_spec(s: StructV) -> Result<InherentImplV, NewError> {
    match s.fields {
        FieldsV::Named(fs) => Ok(
            InherentImplV {
                ident: s.ident,
                generics: s.generics,
                methods: seq![MethodV::New(params_named(fs))],
            },
        ),
        FieldsV::Unnamed(fs) => Ok(
            InherentImplV {
                ident: s.ident,
                generics: s.generics,
                methods: seq![MethodV::New(params_unnamed(fs))],
            },
        ),
        FieldsV::Unit => Err(NewError::UnitFields),
    }
}

fn build_params(fs: &Vec<FieldDef>, named: bool) -> (r: Vec<ParamDef>)
    requires
        named ==> forall|i: int|
            0 <= i < fs@.len() ==> #[trigger] crate::ast::fields_seq_view(fs@)[i].ident is Some,
    ensures
        params_views(r@) == if named {
            params_named(crate::ast::fields_seq_view(fs@))
        } else {
            params_unnamed(crate::ast::fields_seq_view(fs@))
        },
{
    let ghost fsv = crate::ast::fields_seq_view(fs@);
    let mut out: Vec<ParamDef> = Vec::new();
    let mut i: usize = 0;
    while i < fs.len()
        invariant
            fsv == crate::ast::fields_seq_view(fs@),
            fsv.len() == fs@.len(),
            i <= fs@.len(),
            out@.len() == i as int,
            named ==> forall|j: int| 0 <= j < fs@.len() ==> #[trigger] fsv[j].ident is Some,
            forall|j: int|
                0 <= j < i ==> #[trigger] out@[j]@ == if named {
                    ParamV { name: fsv[j].ident->Some_0, ty: fsv[j].ty }
                } else {
                    ParamV { name: arg_name(j), ty: fsv[j].ty }
                },
        decreases fs@.len() - i,
    {
        proof {
            assert(fsv[i as int] == fs@[i as int]@);
        }
        let name: String = if named {
            match &fs[i].ident {
                Some(n) => n.clone(),
                None => unreached(),
            }
        } else {
            let mut n = String::from_str("arg_");
            let digits = usize_to_string(i + 1);
            n.append(digits.as_str());
            n
        };
        out.push(ParamDef { name, ty: fs[i].ty.clone_ty() });
        i += 1;
    }
    proof {
        if named {
            assert(params_views(out@) =~= params_named(fsv));
        } else {
            assert(params_views(out@) =~= params_unnamed(fsv));
        }
    }
    out
}

/// Synthesizes the constructor, exactly as `expand_spec` states, with the
/// error exactly where it states one. The caller hands in named fields that
/// each carry a name.
pub fn expand(struct_: &StructDef) -> (r: Result<InherentImpl, NewError>)
    requires
        struct_@.fields.wf(),
    ensures
        r matches Ok(v) ==> expand_spec(struct_@) == Ok::<InherentImplV, NewError>(v@),
        r matches Err(e) ==> expand_spec(struct_@) == Err::<InherentImplV, NewError>(e),
{
    let params = match &struct_.fields {
        Fields::Named(fs) => build_params(fs, true),
        Fields::Unnamed(fs) => build_params(fs, false),
        Fields::Unit => {
            return Err(NewError::UnitFields);
        },
    };
    let ghost pv = params_views(params@);
    let methods = vec![MethodDef::New(params)];
    proof {
        assert(methods_views(methods@) =~= seq![MethodV::New(pv)]);
    }
    let r = fast_impl(struct_, methods);
    proof {
        assert(r@ =~~= expand_spec(struct_@)->Ok_0);
    }
    Ok(r)
}

} // verus!
