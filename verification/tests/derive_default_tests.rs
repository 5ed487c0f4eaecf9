use std_reset::ast::{
    Attr, FieldDef, Fields, GenericParamDef, GenericsDef, ItemDef, PathArgs, Seg, StructDef, Ty,
    TyPath, TypeParamDef, EnumDef, VariantDef, GenArg,
};
use std_reset::default::{expand, DefaultError};
use std_reset::output::{DefaultBody, DefaultExpr, DefaultImpl, FieldDefault};

fn path(name: &str) -> Ty {
    Ty::Path(TyPath {
        segments: vec![Seg {
            ident: name.to_string(),
            arguments: PathArgs::Empty,
        }],
    })
}

fn path1(name: &str, arg: Ty) -> Ty {
    Ty::Path(TyPath {
        segments: vec![Seg {
            ident: name.to_string(),
            arguments: PathArgs::AngleBracketed(vec![GenArg::TypeArg(arg)]),
        }],
    })
}

fn reference(inner: Ty) -> Ty {
    Ty::Reference(Box::new(inner))
}

fn attr(name: &str, tokens: Option<&str>) -> Attr {
    Attr {
        name: name.to_string(),
        tokens: tokens.map(|t| t.to_string()),
    }
}

fn named_field(name: &str, ty: Ty, attrs: Vec<Attr>) -> FieldDef {
    FieldDef {
        ident: Some(name.to_string()),
        ty,
        attrs,
    }
}

fn tuple_field(ty: Ty, attrs: Vec<Attr>) -> FieldDef {
    FieldDef {
        ident: None,
        ty,
        attrs,
    }
}

fn no_generics() -> GenericsDef {
    GenericsDef { params: vec![] }
}

fn given(name: &str, tokens: &str) -> FieldDefault {
    FieldDefault {
        ident: Some(name.to_string()),
        value: DefaultExpr::Given(tokens.to_string()),
    }
}

#[test]
fn named_structure() {
    let item = ItemDef::Struct(StructDef {
        ident: "Named".to_string(),
        generics: no_generics(),
        fields: Fields::Named(vec![
            named_field(
                "first",
                path("String"),
                vec![attr("default", Some("String::from(\"Ferris\")"))],
            ),
            named_field(
                "second",
                reference(path("str")),
                vec![attr("default", Some("\"Ferris\""))],
            ),
            named_field(
                "third",
                path("u128"),
                vec![attr("default", Some("8_9999_999_999"))],
            ),
            named_field("fourth", path1("Option", path("String")), vec![]),
            named_field(
                "fifth",
                path1("Option", path("u32")),
                vec![attr("default", Some("Some(32)"))],
            ),
        ]),
    });
    let out = expand(&item).unwrap();
    assert_eq!(
        out,
        DefaultImpl {
            ident: "Named".to_string(),
            generics: no_generics(),
            variant: None,
            body: DefaultBody::Named(vec![
                given("first", "String::from(\"Ferris\")"),
                given("second", "\"Ferris\""),
                given("third", "8_9999_999_999"),
                FieldDefault {
                    ident: Some("fourth".to_string()),
                    value: DefaultExpr::DefaultOf(path1("Option", path("String"))),
                },
                given("fifth", "Some(32)"),
            ]),
        }
    );
}

#[test]
fn unnamed_structure() {
    let item = ItemDef::Struct(StructDef {
        ident: "Unnamed".to_string(),
        generics: no_generics(),
        fields: Fields::Unnamed(vec![
            tuple_field(
                path("String"),
                vec![attr("default", Some("String::from(\"Ferris\")"))],
            ),
            tuple_field(reference(path("str")), vec![attr("default", Some("\"Ferris\""))]),
            tuple_field(path("u128"), vec![attr("default", Some("8_9999_999_999"))]),
            tuple_field(path1("Option", path("String")), vec![]),
            tuple_field(path1("Option", path("u32")), vec![attr("default", Some("Some(32)"))]),
        ]),
    });
    let out = expand(&item).unwrap();
    match out.body {
        DefaultBody::Unnamed(values) => {
            assert_eq!(values.len(), 5);
            assert_eq!(
                values[0].value,
                DefaultExpr::Given("String::from(\"Ferris\")".to_string())
            );
            assert_eq!(values[1].value, DefaultExpr::Given("\"Ferris\"".to_string()));
            assert_eq!(values[2].value, DefaultExpr::Given("8_9999_999_999".to_string()));
            assert_eq!(
                values[3].value,
                DefaultExpr::DefaultOf(path1("Option", path("String")))
            );
            assert_eq!(values[4].value, DefaultExpr::Given("Some(32)".to_string()));
        }
        other => panic!("expected an unnamed body, got {:?}", other),
    }
}

#[test]
fn unit_structure() {
    let item = ItemDef::Struct(StructDef {
        ident: "Unit".to_string(),
        generics: no_generics(),
        fields: Fields::Unit,
    });
    let out = expand(&item).unwrap();
    assert_eq!(
        out,
        DefaultImpl {
            ident: "Unit".to_string(),
            generics: no_generics(),
            variant: None,
            body: DefaultBody::Unit,
        }
    );
}

#[test]
fn with_generics() {
    let type_param = |name: &str| {
        GenericParamDef::Type(TypeParamDef {
            ident: name.to_string(),
            bounds: vec![],
        })
    };
    let item = ItemDef::Struct(StructDef {
        ident: "Data".to_string(),
        generics: GenericsDef {
            params: vec![type_param("A"), type_param("B"), type_param("C"), type_param("D")],
        },
        fields: Fields::Unnamed(vec![
            tuple_field(path("A"), vec![]),
            tuple_field(path("B"), vec![]),
            tuple_field(path("C"), vec![]),
            tuple_field(path("D"), vec![]),
        ]),
    });
    let out = expand(&item).unwrap();
    let bounded = |name: &str| {
        GenericParamDef::Type(TypeParamDef {
            ident: name.to_string(),
            bounds: vec!["Default".to_string()],
        })
    };
    assert_eq!(
        out.generics,
        GenericsDef {
            params: vec![bounded("A"), bounded("B"), bounded("C"), bounded("D")],
        }
    );
}

#[test]
fn enum_() {
    let units = ItemDef::Enum(EnumDef {
        ident: "Units".to_string(),
        generics: no_generics(),
        variants: vec![
            VariantDef {
                ident: "One".to_string(),
                attrs: vec![attr("default", None)],
                fields: Fields::Unit,
            },
            VariantDef {
                ident: "Two".to_string(),
                attrs: vec![],
                fields: Fields::Unit,
            },
        ],
    });
    let out = expand(&units).unwrap();
    assert_eq!(out.variant, Some("One".to_string()));
    assert_eq!(out.body, DefaultBody::Unit);

    let unnamed = ItemDef::Enum(EnumDef {
        ident: "Unnamed".to_string(),
        generics: no_generics(),
        variants: vec![
            VariantDef {
                ident: "One".to_string(),
                attrs: vec![attr("default", None)],
                fields: Fields::Unnamed(vec![tuple_field(
                    path("i32"),
                    vec![attr("default", Some("10"))],
                )]),
            },
            VariantDef {
                ident: "Two".to_string(),
                attrs: vec![],
                fields: Fields::Unit,
            },
        ],
    });
    let out = expand(&unnamed).unwrap();
    assert_eq!(out.variant, Some("One".to_string()));
    assert_eq!(
        out.body,
        DefaultBody::Unnamed(vec![FieldDefault {
            ident: None,
            value: DefaultExpr::Given("10".to_string()),
        }])
    );

    let named = ItemDef::Enum(EnumDef {
        ident: "Named".to_string(),
        generics: no_generics(),
        variants: vec![
            VariantDef {
                ident: "One".to_string(),
                attrs: vec![],
                fields: Fields::Unit,
            },
            VariantDef {
                ident: "Two".to_string(),
                attrs: vec![attr("default", None)],
                fields: Fields::Named(vec![named_field(
                    "first",
                    path("UnnamedStruct"),
                    vec![attr("default", Some("UnnamedStruct"))],
                )]),
            },
        ],
    });
    let out = expand(&named).unwrap();
    assert_eq!(out.variant, Some("Two".to_string()));
    assert_eq!(
        out.body,
        DefaultBody::Named(vec![given("first", "UnnamedStruct")])
    );
}

#[test]
fn enum_without_default_variant() {
    let item = ItemDef::Enum(EnumDef {
        ident: "Bare".to_string(),
        generics: no_generics(),
        variants: vec![VariantDef {
            ident: "One".to_string(),
            attrs: vec![],
            fields: Fields::Unit,
        }],
    });
    assert_eq!(expand(&item), Err(DefaultError::MissingDefaultVariant));
}

#[test]
fn bound_kept_when_already_there() {
    let item = ItemDef::Struct(StructDef {
        ident: "Kept".to_string(),
        generics: GenericsDef {
            params: vec![GenericParamDef::Type(TypeParamDef {
                ident: "T".to_string(),
                bounds: vec!["Default".to_string(), "Clone".to_string()],
            })],
        },
        fields: Fields::Unit,
    });
    let out = expand(&item).unwrap();
    assert_eq!(
        out.generics,
        GenericsDef {
            params: vec![GenericParamDef::Type(TypeParamDef {
                ident: "T".to_string(),
                bounds: vec!["Default".to_string(), "Clone".to_string()],
            })],
        }
    );
}
