use std_reset::any_type::{expand, tmp, Collection, ImplHeader, ImplPair, Reference};
use std_reset::ast::{GenArg, PathArgs, Seg, Ty, TyPath};

fn path(name: &str) -> Ty {
    Ty::Path(TyPath {
        segments: vec![Seg {
            ident: name.to_string(),
            arguments: PathArgs::Empty,
        }],
    })
}

fn path1(name: &str, arg: Ty) -> Ty {
    Ty::Path(TyPath {
        segments: vec![Seg {
            ident: name.to_string(),
            arguments: PathArgs::AngleBracketed(vec![GenArg::TypeArg(arg)]),
        }],
    })
}

fn reference(inner: Ty) -> Ty {
    Ty::Reference(Box::new(inner))
}

fn rc(inner: Ty) -> Ty {
    path1("Rc", inner)
}

fn vec_of(inner: Ty) -> Ty {
    path1("Vec", inner)
}

fn arr(inner: Ty, n: usize) -> Ty {
    Ty::Array(Box::new(inner), n)
}

/// Every reference layer around a base, in enumeration order.
fn ref_perms(base: &dyn Fn() -> Ty) -> Vec<Ty> {
    vec![base(), reference(base()), rc(base()), reference(rc(base()))]
}

#[test]
fn collection_define_reads_the_layer() {
    assert_eq!(Collection::define(&path("i32")), Collection::Plain(path("i32")));
    assert_eq!(
        Collection::define(&vec_of(path("i32"))),
        Collection::Vect(path("i32"))
    );
    assert_eq!(
        Collection::define(&arr(path("u8"), 3)),
        Collection::Arr(path("u8"), 3)
    );
    assert_eq!(
        Collection::define(&reference(vec_of(path("i32")))),
        Collection::Vect(path("i32"))
    );
}

#[test]
fn reference_define_reads_the_layer() {
    assert_eq!(Reference::define(&path("i32")), Reference::NoneRef(path("i32")));
    assert_eq!(Reference::define(&rc(path("i32"))), Reference::Rc(path("i32")));
    assert_eq!(
        Reference::define(&reference(path("i32"))),
        Reference::Ref(path("i32"))
    );
    assert_eq!(
        Reference::define(&reference(rc(path("i32")))),
        Reference::RefRc(path("i32"))
    );
    assert_eq!(
        Reference::define(&arr(path("u8"), 2)),
        Reference::NoneRef(arr(path("u8"), 2))
    );
}

#[test]
fn tokens_are_assembled() {
    assert_eq!(
        Collection::Vect(path("i32")).get_token(),
        vec_of(path("i32"))
    );
    assert_eq!(Collection::Arr(path("u8"), 3).get_token(), arr(path("u8"), 3));
    assert_eq!(Reference::Rc(path("i32")).get_token(), rc(path("i32")));
    assert_eq!(
        Reference::RefRc(path("i32")).get_token(),
        reference(rc(path("i32")))
    );
    assert_eq!(
        Reference::Ref(path("u8")).get_token_from_other_type(&path("u16")),
        reference(path("u16"))
    );
}

#[test]
fn tmp_enumerates_a_plain_type() {
    let perms = tmp(&path("i32"));
    let mut expected: Vec<Ty> = Vec::new();
    // outer layer around each inner layer around the base
    for outer in 0..4 {
        for inner in 0..4 {
            let with_inner = ref_perms(&|| path("i32"))[inner].clone_ty();
            let item = match outer {
                0 => with_inner,
                1 => reference(with_inner),
                2 => rc(with_inner),
                _ => reference(rc(with_inner)),
            };
            expected.push(item);
        }
    }
    assert_eq!(perms, expected);
}

#[test]
fn tmp_enumerates_an_array() {
    let perms = tmp(&arr(path("u8"), 3));
    assert_eq!(perms.len(), 32);
    // first block: no outer reference, the array kept, inner layers permuted
    assert_eq!(perms[0], arr(path("u8"), 3));
    assert_eq!(perms[1], arr(reference(path("u8")), 3));
    assert_eq!(perms[2], arr(rc(path("u8")), 3));
    assert_eq!(perms[3], arr(reference(rc(path("u8"))), 3));
    // the array may also become a vector
    assert_eq!(perms[4], vec_of(path("u8")));
    assert_eq!(perms[5], vec_of(reference(path("u8"))));
    // second block: a reference around each of the eight
    assert_eq!(perms[8], reference(arr(path("u8"), 3)));
    assert_eq!(perms[12], reference(vec_of(path("u8"))));
    // the very last: a reference to a counted pointer all the way down
    assert_eq!(
        perms[31],
        reference(rc(vec_of(reference(rc(path("u8"))))))
    );
}

#[test]
fn tmp_strips_an_outer_reference() {
    let with_ref = tmp(&reference(path("i32")));
    let plain = tmp(&path("i32"));
    // the reference is only a layer to permute: the same candidates come out
    assert_eq!(with_ref, plain);
}

#[test]
fn expand_pairs_every_permutation() {
    let header = ImplHeader {
        trait_path: Some(TyPath {
            segments: vec![Seg {
                ident: "Of".to_string(),
                arguments: PathArgs::AngleBracketed(vec![GenArg::TypeArg(path("u8"))]),
            }],
        }),
        self_ty: path("u16"),
    };
    let pairs = expand(&header);
    assert_eq!(pairs.len(), 256);
    assert_eq!(
        pairs[0],
        ImplPair {
            of: path("u8"),
            to: path("u16"),
        }
    );
    assert_eq!(
        pairs[255],
        ImplPair {
            of: reference(rc(reference(rc(path("u8"))))),
            to: reference(rc(reference(rc(path("u16"))))),
        }
    );
    // one full row pairs the first source permutation with every target one
    for b in 0..16 {
        assert_eq!(pairs[b].of, path("u8"));
    }
    assert_eq!(pairs[16].of, reference(path("u8")));
}
