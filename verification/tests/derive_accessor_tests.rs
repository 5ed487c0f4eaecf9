use std_reset::ast::{
    Attr, FieldDef, Fields, GenericsDef, PathArgs, Seg, StructDef, Ty, TyPath,
};
use std_reset::output::{DerefImpl, DerefTarget, DisplayImpl, MethodDef};
use std_reset::setter_getter::{expand_getter, expand_setter, AccessorError};
use std_reset::deref::{expand as deref_expand, DerefError};
use std_reset::display::expand as display_expand;

fn path(name: &str) -> Ty {
    Ty::Path(TyPath {
        segments: vec![Seg {
            ident: name.to_string(),
            arguments: PathArgs::Empty,
        }],
    })
}

fn reference(inner: Ty) -> Ty {
    Ty::Reference(Box::new(inner))
}

fn mark(name: &str) -> Attr {
    Attr {
        name: name.to_string(),
        tokens: None,
    }
}

fn named_field(name: &str, ty: Ty, attrs: Vec<Attr>) -> FieldDef {
    FieldDef {
        ident: Some(name.to_string()),
        ty,
        attrs,
    }
}

fn tuple_field(ty: Ty, attrs: Vec<Attr>) -> FieldDef {
    FieldDef {
        ident: None,
        ty,
        attrs,
    }
}

fn no_generics() -> GenericsDef {
    GenericsDef { params: vec![] }
}

fn named_struct(ident: &str, fields: Vec<FieldDef>) -> StructDef {
    StructDef {
        ident: ident.to_string(),
        generics: no_generics(),
        fields: Fields::Named(fields),
    }
}

fn tuple_struct(ident: &str, fields: Vec<FieldDef>) -> StructDef {
    StructDef {
        ident: ident.to_string(),
        generics: no_generics(),
        fields: Fields::Unnamed(fields),
    }
}

fn setter(field: &str, ty: Ty) -> MethodDef {
    MethodDef::Setter {
        name: format!("set_{}", field),
        field: field.to_string(),
        ty,
    }
}

fn getter(field: &str, ty: Ty) -> MethodDef {
    MethodDef::Getter {
        name: format!("get_{}", field),
        field: field.to_string(),
        ty,
    }
}

#[test]
fn setter_and_getter_default() {
    let s = named_struct(
        "Tmp",
        vec![
            named_field("first", path("i32"), vec![]),
            named_field("second", path("i32"), vec![]),
        ],
    );
    let set_impl = expand_setter(&s).unwrap();
    assert_eq!(
        set_impl.methods,
        vec![setter("first", path("i32")), setter("second", path("i32"))]
    );
    let get_impl = expand_getter(&s).unwrap();
    assert_eq!(
        get_impl.methods,
        vec![getter("first", path("i32")), getter("second", path("i32"))]
    );
    assert_eq!(set_impl.ident, "Tmp".to_string());
}

#[test]
fn setter_and_getter_with_exclude_fields() {
    let s = named_struct(
        "Tmp",
        vec![
            named_field("first", path("i32"), vec![mark("exclude_getter")]),
            named_field(
                "second",
                path("i32"),
                vec![mark("exclude_setter"), mark("exclude_getter")],
            ),
            named_field("third", path("i32"), vec![mark("exclude_setter")]),
        ],
    );
    let set_impl = expand_setter(&s).unwrap();
    assert_eq!(set_impl.methods, vec![setter("first", path("i32"))]);
    let get_impl = expand_getter(&s).unwrap();
    assert_eq!(get_impl.methods, vec![getter("third", path("i32"))]);
}

#[test]
fn setter_and_getter_with_include_field() {
    let s = named_struct(
        "Tmp",
        vec![
            named_field("first", path("i32"), vec![]),
            named_field(
                "second",
                path("i32"),
                vec![mark("include_setter"), mark("include_getter")],
            ),
            named_field("third", path("i32"), vec![mark("include_setter")]),
        ],
    );
    let set_impl = expand_setter(&s).unwrap();
    assert_eq!(
        set_impl.methods,
        vec![setter("second", path("i32")), setter("third", path("i32"))]
    );
    let get_impl = expand_getter(&s).unwrap();
    assert_eq!(get_impl.methods, vec![getter("second", path("i32"))]);
}

#[test]
fn setter_conflicts_are_refused() {
    let both_on_one = named_struct(
        "Tmp",
        vec![named_field(
            "first",
            path("i32"),
            vec![mark("include_setter"), mark("exclude_setter")],
        )],
    );
    assert_eq!(
        expand_setter(&both_on_one),
        Err(AccessorError::ConflictingAttrs)
    );

    let mixed = named_struct(
        "Tmp",
        vec![
            named_field("first", path("i32"), vec![mark("exclude_setter")]),
            named_field("second", path("i32"), vec![mark("include_setter")]),
        ],
    );
    assert_eq!(expand_setter(&mixed), Err(AccessorError::ConflictingAttrs));

    let tuple = tuple_struct("Tmp", vec![tuple_field(path("i32"), vec![])]);
    assert_eq!(expand_setter(&tuple), Err(AccessorError::NotNamedFields));
}

#[test]
fn deref_every_type_structure() {
    let wrapper1 = tuple_struct("Wrapper1", vec![tuple_field(path("i32"), vec![])]);
    let out = deref_expand(&wrapper1).unwrap();
    assert_eq!(
        out,
        DerefImpl {
            ident: "Wrapper1".to_string(),
            generics: no_generics(),
            target: DerefTarget::Pos(0),
            ty: path("i32"),
        }
    );

    let wrapper2 = tuple_struct(
        "Wrapper2",
        vec![
            tuple_field(path("i32"), vec![]),
            tuple_field(reference(path("str")), vec![mark("deref")]),
        ],
    );
    let out = deref_expand(&wrapper2).unwrap();
    assert_eq!(out.target, DerefTarget::Pos(1));
    assert_eq!(out.ty, reference(path("str")));

    let wrapper3 = named_struct(
        "Wrapper3",
        vec![
            named_field("first", path("i32"), vec![]),
            named_field("second", reference(path("str")), vec![mark("deref")]),
        ],
    );
    let out = deref_expand(&wrapper3).unwrap();
    assert_eq!(out.target, DerefTarget::Name("second".to_string()));
    assert_eq!(out.ty, reference(path("str")));
}

#[test]
fn deref_errors() {
    let two_marked = named_struct(
        "Tmp",
        vec![
            named_field("first", path("i32"), vec![mark("deref")]),
            named_field("second", path("i32"), vec![mark("deref")]),
        ],
    );
    assert_eq!(deref_expand(&two_marked), Err(DerefError::TooManyMarked));

    let named_unmarked = named_struct(
        "Tmp",
        vec![named_field("first", path("i32"), vec![])],
    );
    assert_eq!(deref_expand(&named_unmarked), Err(DerefError::NamedNeedsMark));

    let tuple_unmarked = tuple_struct(
        "Tmp",
        vec![
            tuple_field(path("i32"), vec![]),
            tuple_field(path("u32"), vec![]),
        ],
    );
    assert_eq!(deref_expand(&tuple_unmarked), Err(DerefError::UnnamedNeedsMark));

    let unit = StructDef {
        ident: "Tmp".to_string(),
        generics: no_generics(),
        fields: Fields::Unit,
    };
    assert_eq!(deref_expand(&unit), Err(DerefError::UnitFields));
}

#[test]
fn display() {
    let s = named_struct("Exmpl", vec![]);
    let out = display_expand(&s);
    assert_eq!(
        out,
        DisplayImpl {
            ident: "Exmpl".to_string(),
            generics: no_generics(),
        }
    );
}
