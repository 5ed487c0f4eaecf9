use std_reset::ast::{ident_is, GenArg, PathArgs, Seg, Ty, TyPath};

fn path1(name: &str, arg: Ty) -> Ty {
    Ty::Path(TyPath {
        segments: vec![Seg {
            ident: name.to_string(),
            arguments: PathArgs::AngleBracketed(vec![GenArg::TypeArg(arg)]),
        }],
    })
}

fn path(name: &str) -> Ty {
    Ty::Path(TyPath {
        segments: vec![Seg {
            ident: name.to_string(),
            arguments: PathArgs::Empty,
        }],
    })
}

#[test]
fn ident_comparison_reads_the_text() {
    assert!(ident_is(&"Vec".to_string(), "Vec"));
    assert!(!ident_is(&"Vec".to_string(), "Rc"));
    assert!(!ident_is(&"Vecs".to_string(), "Vec"));
    assert!(!ident_is(&"".to_string(), "Vec"));
    assert!(ident_is(&"".to_string(), ""));
}

#[test]
fn deep_copies_are_equal() {
    let ty = Ty::Reference(Box::new(path1(
        "Rc",
        Ty::Array(Box::new(path1("Vec", path("i32"))), 4),
    )));
    assert_eq!(ty.clone_ty(), ty);
}
