use std_reset::ast::{FieldDef, Fields, GenericsDef, PathArgs, Seg, StructDef, Ty, TyPath};
use std_reset::new::{expand, usize_to_string, NewError};
use std_reset::output::{MethodDef, ParamDef};

fn path(name: &str) -> Ty {
    Ty::Path(TyPath {
        segments: vec![Seg {
            ident: name.to_string(),
            arguments: PathArgs::Empty,
        }],
    })
}

fn no_generics() -> GenericsDef {
    GenericsDef { params: vec![] }
}

fn param(name: &str, ty: Ty) -> ParamDef {
    ParamDef {
        name: name.to_string(),
        ty,
    }
}

#[test]
fn new_for_named_fields() {
    let s = StructDef {
        ident: "Tmp".to_string(),
        generics: no_generics(),
        fields: Fields::Named(vec![
            FieldDef {
                ident: Some("first".to_string()),
                ty: path("i32"),
                attrs: vec![],
            },
            FieldDef {
                ident: Some("second".to_string()),
                ty: path("T"),
                attrs: vec![],
            },
        ]),
    };
    let out = expand(&s).unwrap();
    assert_eq!(
        out.methods,
        vec![MethodDef::New(vec![
            param("first", path("i32")),
            param("second", path("T")),
        ])]
    );
}

#[test]
fn new_for_tuple_fields_numbers_the_parameters() {
    let field = |name: &str| FieldDef {
        ident: None,
        ty: path(name),
        attrs: vec![],
    };
    let s = StructDef {
        ident: "Tmp".to_string(),
        generics: no_generics(),
        fields: Fields::Unnamed(vec![
            field("a0"),
            field("a1"),
            field("a2"),
            field("a3"),
            field("a4"),
            field("a5"),
            field("a6"),
            field("a7"),
            field("a8"),
            field("a9"),
            field("a10"),
        ]),
    };
    let out = expand(&s).unwrap();
    match &out.methods[0] {
        MethodDef::New(params) => {
            assert_eq!(params.len(), 11);
            assert_eq!(params[0], param("arg_1", path("a0")));
            assert_eq!(params[1], param("arg_2", path("a1")));
            assert_eq!(params[9], param("arg_10", path("a9")));
            assert_eq!(params[10], param("arg_11", path("a10")));
        }
        other => panic!("expected a constructor, got {:?}", other),
    }
}

#[test]
fn new_refuses_a_unit_structure() {
    let s = StructDef {
        ident: "Tmp".to_string(),
        generics: no_generics(),
        fields: Fields::Unit,
    };
    assert_eq!(expand(&s), Err(NewError::UnitFields));
}

#[test]
fn decimal_rendering() {
    assert_eq!(usize_to_string(0), "0".to_string());
    assert_eq!(usize_to_string(7), "7".to_string());
    assert_eq!(usize_to_string(10), "10".to_string());
    assert_eq!(usize_to_string(105), "105".to_string());
    assert_eq!(usize_to_string(987654), "987654".to_string());
}
