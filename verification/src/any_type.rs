//! The combinatorial type-substitution engine: it takes a type apart into an
//! outer reference layer, a collection layer and an inner reference layer,
//! and enumerates every permutation of those layers around the base type.
//!
//! An `impl Of<F> for T` header handed to the expansion yields one candidate
//! pair for every combination of a permutation of `F` with a permutation of
//! `T`.

use vstd::prelude::*;
use vstd::pervasive::unreached;
use crate::ast::{
    Ty, TyV, TyPath, Seg, SegV, PathArgs, PathArgsV, GenArg, GenArgV, first_type_arg_of,
    ident_is, tys_views,
};
use crate::shared::{get_segment_from_type, type_from_args};

verus! {

/// The collection layer of a type: none, a vector, or an array.
#[derive(Debug, PartialEq, Eq)]
pub enum Collection {
    /// No collection around the type.
    Plain(Ty),
    /// A vector of the type.
    Vect(Ty),
    /// An array of the type, with its literal length.
    Arr(Ty, usize),
}

/// The view of `Collection`.
#[verifier::ext_equal]
pub enum ColV {
    Plain(TyV),
    Vect(TyV),
    Arr(TyV, usize),
}

impl View for Collection {
    type V = ColV;

    open spec fn view(&self) -> ColV {
        match self {
            Collection::Plain(t) => ColV::Plain(t@),
            Collection::Vect(t) => ColV::Vect(t@),
            Collection::Arr(t, n) => ColV::Arr(t@, *n),
        }
    }
}

/// The reference layer of a type: none, a reference, a counted pointer, or a
/// reference to a counted pointer.
#[derive(Debug, PartialEq, Eq)]
pub enum Reference {
    NoneRef(Ty),
    Ref(Ty),
    Rc(Ty),
    RefRc(Ty),
}

/// The view of `Reference`.
#[verifier::ext_equal]
pub enum RefV {
    NoneRef(TyV),
    Ref(TyV),
    Rc(TyV),
    RefRc(TyV),
}

impl View for Reference {
    type V = RefV;

    open spec fn view(&self) -> RefV {
        match self {
            Reference::NoneRef(t) => RefV::NoneRef(t@),
            Reference::Ref(t) => RefV::Ref(t@),
            Reference::Rc(t) => RefV::Rc(t@),
            Reference::RefRc(t) => RefV::RefRc(t@),
        }
    }
}

/// The head segment of a path type names the given wrapper.
pub open spec fn head_is(t: TyV, name: Seq<char>) -> bool {
    t matches TyV::Path(segs) && segs.len() > 0 && segs[0].ident == name
}

/// The first type argument of the head segment of a path type.
pub open spec fn head_arg(t: TyV) -> Option<TyV> {
    first_type_arg_of(t->Path_0[0].arguments)
}

/// The collection layer can be read off the type without panic.
pub open spec fn col_definable(t: TyV) -> bool {
    match t {
        TyV::Array(elem, n) => true,
        TyV::Path(segs) => segs.len() > 0 && (head_is(t, "Vec"@) ==> head_arg(t) is Some),
        TyV::Reference(elem) => *elem matches TyV::Path(segs) && segs.len() > 0 && (head_is(
            *elem,
            "Vec"@,
        ) ==> head_arg(*elem) is Some),
    }
}

/// Which collection layer a type carries: an array is an array, a path or a
/// reference whose head segment is a vector is a vector of the argument, and
/// anything else is no collection around the whole type.
pub open spec fn col_define(t: TyV) -> ColV
    recommends
        col_definable(t),
{
    match t {
        TyV::Array(elem, n) => ColV::Arr(*elem, n),
        TyV::Path(segs) => if head_is(t, "Vec"@) {
            ColV::Vect(head_arg(t)->Some_0)
        } else {
            ColV::Plain(t)
        },
        TyV::Reference(elem) => if head_is(*elem, "Vec"@) {
            ColV::Vect(head_arg(*elem)->Some_0)
        } else {
            ColV::Plain(t)
        },
    }
}

/// The type inside the collection layer.
pub open spec fn col_inner(c: ColV) -> TyV {
    match c {
        ColV::Plain(t) => t,
        ColV::Vect(t) => t,
        ColV::Arr(t, n) => t,
    }
}

/// The same collection layer around another type.
pub open spec fn col_set(c: ColV, t: TyV) -> ColV {
    match c {
        ColV::Plain(_) => ColV::Plain(t),
        ColV::Vect(_) => ColV::Vect(t),
        ColV::Arr(_, n) => ColV::Arr(t, n),
    }
}

/// The type that a collection layer stands for.
pub open spec fn col_token(c: ColV) -> TyV {
    match c {
        ColV::Plain(t) => t,
        ColV::Vect(t) => TyV::Path(
            seq![
                SegV {
                    ident: "Vec"@,
                    arguments: PathArgsV::AngleBracketed(seq![GenArgV::TypeArg(Box::new(t))]),
                },
            ],
        ),
        ColV::Arr(t, n) => TyV::Array(Box::new(t), n),
    }
}

/// The collection layers that a layer may become: an array may also become a
/// vector; everything else only stays what it is.
pub open spec fn col_transfers(c: ColV) -> Seq<ColV> {
    match c {
        ColV::Plain(t) => seq![ColV::Plain(t)],
        ColV::Vect(t) => seq![ColV::Vect(t)],
        ColV::Arr(t, n) => seq![ColV::Arr(t, n), ColV::Vect(t)],
    }
}

/// The reference layer can be read off the type without panic.
pub open spec fn ref_definable(t: TyV) -> bool {
    match t {
        TyV::Array(elem, n) => true,
        TyV::Path(segs) => segs.len() > 0 && (head_is(t, "Rc"@) ==> head_arg(t) is Some),
        TyV::Reference(elem) => *elem matches TyV::Path(segs) && segs.len() > 0 && (head_is(
            *elem,
            "Rc"@,
        ) ==> head_arg(*elem) is Some),
    }
}

/// Which reference layer a type carries.
pub open spec fn ref_define(t: TyV) -> RefV
    recommends
        ref_definable(t),
{
    match t {
        TyV::Array(elem, n) => RefV::NoneRef(t),
        TyV::Path(segs) => if head_is(t, "Rc"@) {
            RefV::Rc(head_arg(t)->Some_0)
        } else {
            RefV::NoneRef(t)
        },
        TyV::Reference(elem) => if head_is(*elem, "Rc"@) {
            RefV::RefRc(head_arg(*elem)->Some_0)
        } else {
            RefV::Ref(*elem)
        },
    }
}

/// The type inside the reference layer.
pub open spec fn ref_inner(r: RefV) -> TyV {
    match r {
        RefV::NoneRef(t) => t,
        RefV::Ref(t) => t,
        RefV::Rc(t) => t,
        RefV::RefRc(t) => t,
    }
}

/// The same reference layer around another type.
pub open spec fn ref_set(r: RefV, t: TyV) -> RefV {
    match r {
        RefV::NoneRef(_) => RefV::NoneRef(t),
        RefV::Ref(_) => RefV::Ref(t),
        RefV::Rc(_) => RefV::Rc(t),
        RefV::RefRc(_) => RefV::RefRc(t),
    }
}

/// The path that wraps a type in a counted pointer.
pub open spec fn rc_path(t: TyV) -> TyV {
    TyV::Path(
        seq![
            SegV {
                ident: "Rc"@,
                arguments: PathArgsV::AngleBracketed(seq![GenArgV::TypeArg(Box::new(t))]),
            },
        ],
    )
}

/// The type that a reference layer stands for.
pub open spec fn ref_token(r: RefV) -> TyV {
    match r {
        RefV::NoneRef(t) => t,
        RefV::Ref(t) => TyV::Reference(Box::new(t)),
        RefV::Rc(t) => rc_path(t),
        RefV::RefRc(t) => TyV::Reference(Box::new(rc_path(t))),
    }
}

/// Every reference layer around the inner type, in a fixed order.
pub open spec fn ref_transfers(r: RefV) -> Seq<RefV> {
    let t = ref_inner(r);
    seq![RefV::NoneRef(t), RefV::Ref(t), RefV::Rc(t), RefV::RefRc(t)]
}

/// The views of a list of collection layers, elementwise.
pub open spec fn cols_views(s: Seq<Collection>) -> Seq<ColV> {
    Seq::new(s.len(), |i: int| s[i]@)
}

/// The views of a list of reference layers, elementwise.
pub open spec fn refs_views(s: Seq<Reference>) -> Seq<RefV> {
    Seq::new(s.len(), |i: int| s[i]@)
}

impl Collection {
    /// Reads the collection layer off a type, as `col_define` states. The
    /// caller does not hand in a type whose layer cannot be read.
    pub fn define(type_: &Ty) -> (r: Collection)
        requires
            col_definable(type_@),
        ensures
            r@ == col_define(type_@),
    {
        match type_ {
            Ty::Array(elem, len) => Collection::Arr(elem.clone_ty(), *len),
            Ty::Path(_) | Ty::Reference(_) => {
                let seg = get_segment_from_type(
                    match type_ {
                        Ty::Path(_) => type_,
                        Ty::Reference(elem) => elem,
                        _ => unreached(),
                    },
                );
                if ident_is(&seg.ident, "Vec") {
                    let inner_type = match type_from_args(&seg.arguments) {
                        Ok(t) => t,
                        Err(_) => unreached(),
                    };
                    return Collection::Vect(inner_type.clone_ty());
                }
                Collection::Plain(type_.clone_ty())
            },
        }
    }

    /// The type inside the collection layer.
    pub fn get_inner_type<'a>(&'a self) -> (r: &'a Ty)
        ensures
            r@ == col_inner(self@),
    {
        match self {
            Collection::Plain(t) => t,
            Collection::Vect(t) => t,
            Collection::Arr(t, _) => t,
        }
    }

    /// The same collection layer around another type.
    pub fn set_type(&self, type_: &Ty) -> (r: Collection)
        ensures
            r@ == col_set(self@, type_@),
    {
        match self {
            Collection::Plain(_) => Collection::Plain(type_.clone_ty()),
            Collection::Vect(_) => Collection::Vect(type_.clone_ty()),
            Collection::Arr(_, len) => Collection::Arr(type_.clone_ty(), *len),
        }
    }

    /// The type this layer stands for, assembled.
    pub fn get_token(&self) -> (r: Ty)
        ensures
            r@ == col_token(self@),
    {
        match self {
            Collection::Plain(t) => t.clone_ty(),
            Collection::Vect(t) => {
                let arg = GenArg::TypeArg(t.clone_ty());
                let seg = Seg {
                    ident: String::from_str("Vec"),
                    arguments: PathArgs::AngleBracketed(vec![arg]),
                };
                let r = Ty::Path(TyPath { segments: vec![seg] });
                proof {
                    let segs = r->Path_0.segments;
                    let gargs = segs@[0].arguments->AngleBracketed_0;
                    assert(crate::ast::gargs_views(gargs@) =~= seq![
                        GenArgV::TypeArg(Box::new(col_inner(self@))),
                    ]);
                    assert(segs@[0]@ == SegV {
                        ident: "Vec"@,
                        arguments: PathArgsV::AngleBracketed(
                            seq![GenArgV::TypeArg(Box::new(col_inner(self@)))],
                        ),
                    });
                    assert(crate::ast::segs_views(segs@) =~= seq![
                        SegV {
                            ident: "Vec"@,
                            arguments: PathArgsV::AngleBracketed(
                                seq![GenArgV::TypeArg(Box::new(col_inner(self@)))],
                            ),
                        },
                    ]);
                    assert(r@ == col_token(self@));
                }
                r
            },
            Collection::Arr(t, len) => Ty::Array(Box::new(t.clone_ty()), *len),
        }
    }

    /// The same type as `get_token`: assembling and reading back agree.
    pub fn get_type(&self) -> (r: Ty)
        ensures
            r@ == col_token(self@),
    {
        self.get_token()
    }

    /// Every collection layer this one may become, as `col_transfers` states.
    pub fn get_transfers(&self) -> (r: Vec<Collection>)
        ensures
            cols_views(r@) == col_transfers(self@),
    {
        let r = match self {
            Collection::Plain(t) => vec![Collection::Plain(t.clone_ty())],
            Collection::Vect(t) => vec![Collection::Vect(t.clone_ty())],
            Collection::Arr(t, len) => vec![
                Collection::Arr(t.clone_ty(), *len),
                Collection::Vect(t.clone_ty()),
            ],
        };
        proof {
            assert(cols_views(r@) =~= col_transfers(self@));
        }
        r
    }
}

impl Reference {
    /// Reads the reference layer off a type, as `ref_define` states. The
    /// caller does not hand in a type whose layer cannot be read.
    pub fn define(type_: &Ty) -> (r: Reference)
        requires
            ref_definable(type_@),
        ensures
            r@ == ref_define(type_@),
    {
        match type_ {
            Ty::Path(path) => {
                let seg = crate::shared::get_segment(path);
                if ident_is(&seg.ident, "Rc") {
                    let inner_type = match type_from_args(&seg.arguments) {
                        Ok(t) => t,
                        Err(_) => unreached(),
                    };
                    return Reference::Rc(inner_type.clone_ty());
                }
                Reference::NoneRef(type_.clone_ty())
            },
            Ty::Array(_, _) => Reference::NoneRef(type_.clone_ty()),
            Ty::Reference(elem) => {
                let seg = get_segment_from_type(elem);
                if ident_is(&seg.ident, "Rc") {
                    let inner_type = match type_from_args(&seg.arguments) {
                        Ok(t) => t,
                        Err(_) => unreached(),
                    };
                    return Reference::RefRc(inner_type.clone_ty());
                }
                Reference::Ref(elem.clone_ty())
            },
        }
    }

    /// The type inside the reference layer.
    pub fn get_inner_type<'a>(&'a self) -> (r: &'a Ty)
        ensures
            r@ == ref_inner(self@),
    {
        match self {
            Reference::NoneRef(t) => t,
            Reference::Ref(t) => t,
            Reference::Rc(t) => t,
            Reference::RefRc(t) => t,
        }
    }

    /// The same reference layer around another type.
    pub fn set_type(&self, type_: &Ty) -> (r: Reference)
        ensures
            r@ == ref_set(self@, type_@),
    {
        match self {
            Reference::NoneRef(_) => Reference::NoneRef(type_.clone_ty()),
            Reference::Ref(_) => Reference::Ref(type_.clone_ty()),
            Reference::Rc(_) => Reference::Rc(type_.clone_ty()),
            Reference::RefRc(_) => Reference::RefRc(type_.clone_ty()),
        }
    }

    /// The type this layer stands for, assembled.
    pub fn get_token(&self) -> (r: Ty)
        ensures
            r@ == ref_token(self@),
    {
        let inner = self.get_inner_type().clone_ty();
        self.get_token_from_other_type(&inner)
    }

    /// The same type as `get_token`: assembling and reading back agree.
    pub fn get_type(&self) -> (r: Ty)
        ensures
            r@ == ref_token(self@),
    {
        self.get_token()
    }

    /// This reference layer assembled around another type.
    pub fn get_token_from_other_type(&self, type_: &Ty) -> (r: Ty)
        ensures
            r@ == ref_token(ref_set(self@, type_@)),
    {
        match self {
            Reference::NoneRef(_) => type_.clone_ty(),
            Reference::Ref(_) => Ty::Reference(Box::new(type_.clone_ty())),
            Reference::Rc(_) => {
                let r = rc_wrap(type_);
                proof {
                    assert(r@ =~~= ref_token(ref_set(self@, type_@)));
                }
                r
            },
            Reference::RefRc(_) => {
                let r = Ty::Reference(Box::new(rc_wrap(type_)));
                proof {
                    assert(r@ =~~= ref_token(ref_set(self@, type_@)));
                }
                r
            },
        }
    }

    /// Every reference layer around the inner type, as `ref_transfers`
    /// states.
    pub fn get_transfers(&self) -> (r: Vec<Reference>)
        ensures
            refs_views(r@) == ref_transfers(self@),
    {
        let type_ = self.get_inner_type();
        let r = vec![
            Reference::NoneRef(type_.clone_ty()),
            Reference::Ref(type_.clone_ty()),
            Reference::Rc(type_.clone_ty()),
            Reference::RefRc(type_.clone_ty()),
        ];
        proof {
            assert(refs_views(r@) =~= ref_transfers(self@));
        }
        r
    }
}

/// The counted-pointer path around a type, assembled.
fn rc_wrap(type_: &Ty) -> (r: Ty)
    ensures
        r@ == rc_path(type_@),
{
    let arg = GenArg::TypeArg(type_.clone_ty());
    let seg = Seg {
        ident: String::from_str("Rc"),
        arguments: PathArgs::AngleBracketed(vec![arg]),
    };
    let r = Ty::Path(TyPath { segments: vec![seg] });
    proof {
        let segs = r->Path_0.segments;
        let gargs = segs@[0].arguments->AngleBracketed_0;
        assert(crate::ast::gargs_views(gargs@) =~= seq![GenArgV::TypeArg(Box::new(type_@))]);
        assert(segs@[0]@ == SegV {
            ident: "Rc"@,
            arguments: PathArgsV::AngleBracketed(seq![GenArgV::TypeArg(Box::new(type_@))]),
        });
        assert(crate::ast::segs_views(segs@) =~= seq![
            SegV {
                ident: "Rc"@,
                arguments: PathArgsV::AngleBracketed(seq![GenArgV::TypeArg(Box::new(type_@))]),
            },
        ]);
        assert(r@ == rc_path(type_@));
    }
    r
}


/// One substituted candidate: the outer reference layer around the collection
/// layer around the inner reference layer, assembled.
pub open spec fn combo(r1: RefV, c2: ColV, r2: RefV) -> TyV {
    ref_token(ref_set(r1, col_token(col_set(c2, ref_token(r2)))))
}

/// The four candidates for one outer layer and one collection layer: one per
/// inner reference layer, in the order of `ref_transfers`.
pub open spec fn quad(r1: RefV, c2: ColV) -> Seq<TyV> {
    let r2s = ref_transfers(ref_define(col_inner(c2)));
    Seq::new(r2s.len(), |c: int| combo(r1, c2, r2s[c]))
}

/// The candidates of the first `b` collection layers, for one outer layer.
pub open spec fn quads_upto(r1: RefV, cols: Seq<ColV>, b: int) -> Seq<TyV>
    decreases b,
{
    if b <= 0 {
        Seq::empty()
    } else {
        quads_upto(r1, cols, b - 1) + quad(r1, cols[b - 1])
    }
}

/// The candidates of the first `a` outer layers.
pub open spec fn blocks_upto(rs: Seq<RefV>, cols: Seq<ColV>, a: int) -> Seq<TyV>
    decreases a,
{
    if a <= 0 {
        Seq::empty()
    } else {
        blocks_upto(rs, cols, a - 1) + quads_upto(rs[a - 1], cols, cols.len() as int)
    }
}

/// Every layer of the permutation can be read off the type without panic.
pub open spec fn tmp_definable(t: TyV) -> bool {
    &&& ref_definable(t)
    &&& col_definable(ref_inner(ref_define(t)))
    &&& ref_definable(col_inner(col_define(ref_inner(ref_define(t)))))
}

/// Every permutation of the type's layers, in enumeration order: outer
/// reference layers outermost, then collection layers, then inner reference
/// layers.
pub open spec fn tmp_spec(t: TyV) -> Seq<TyV> {
    let rs = ref_transfers(ref_define(t));
    let cols = col_transfers(col_define(ref_inner(ref_define(t))));
    blocks_upto(rs, cols, rs.len() as int)
}

proof fn lemma_tys_views_push(s: Seq<Ty>, x: Ty)
    ensures
        tys_views(s.push(x)) == tys_views(s).push(x@),
{
    assert(tys_views(s.push(x)) =~= tys_views(s).push(x@));
}

/// Enumerates every permutation of the type's reference and collection
/// layers, exactly as `tmp_spec` lists them. The caller does not hand in a
/// type whose layers cannot be read.
pub fn tmp(type_: &Ty) -> (r: Vec<Ty>)
    requires
        tmp_definable(type_@),
    ensures
        tys_views(r@) == tmp_spec(type_@),
{
    let ghost rs = ref_transfers(ref_define(type_@));
    let ghost cols = col_transfers(col_define(ref_inner(ref_define(type_@))));
    let ref_ = Reference::define(type_);
    let mut vec: Vec<Ty> = Vec::new();
    let transfers1 = ref_.get_transfers();
    let mut a: usize = 0;
    while a < transfers1.len()
        invariant
            tmp_definable(type_@),
            rs == ref_transfers(ref_define(type_@)),
            cols == col_transfers(col_define(ref_inner(ref_define(type_@)))),
            refs_views(transfers1@) == rs,
            transfers1@.len() == rs.len(),
            a <= transfers1@.len(),
            tys_views(vec@) == blocks_upto(rs, cols, a as int),
        decreases transfers1@.len() - a,
    {
        proof {
            assert(transfers1@[a as int]@ == rs[a as int]);
            assert(ref_inner(rs[a as int]) == ref_inner(ref_define(type_@)));
        }
        let col = Collection::define(transfers1[a].get_inner_type());
        let transfers2 = col.get_transfers();
        let mut b: usize = 0;
        while b < transfers2.len()
            invariant
                tmp_definable(type_@),
                rs == ref_transfers(ref_define(type_@)),
                cols == col_transfers(col_define(ref_inner(ref_define(type_@)))),
                refs_views(transfers1@) == rs,
                transfers1@.len() == rs.len(),
                a < transfers1@.len(),
                transfers1@[a as int]@ == rs[a as int],
                cols_views(transfers2@) == cols,
                transfers2@.len() == cols.len(),
                b <= transfers2@.len(),
                tys_views(vec@) == blocks_upto(rs, cols, a as int) + quads_upto(
                    rs[a as int],
                    cols,
                    b as int,
                ),
            decreases transfers2@.len() - b,
        {
            proof {
                assert(transfers2@[b as int]@ == cols[b as int]);
                assert(col_inner(cols[b as int]) == col_inner(
                    col_define(ref_inner(ref_define(type_@))),
                ));
            }
            let ref2 = Reference::define(transfers2[b].get_inner_type());
            let transfers3 = ref2.get_transfers();
            let mut c: usize = 0;
            while c < transfers3.len()
                invariant
                    rs == ref_transfers(ref_define(type_@)),
                    cols == col_transfers(col_define(ref_inner(ref_define(type_@)))),
                    refs_views(transfers1@) == rs,
                    transfers1@.len() == rs.len(),
                    a < transfers1@.len(),
                    transfers1@[a as int]@ == rs[a as int],
                    cols_views(transfers2@) == cols,
                    transfers2@.len() == cols.len(),
                    b < transfers2@.len(),
                    transfers2@[b as int]@ == cols[b as int],
                    refs_views(transfers3@) == ref_transfers(
                        ref_define(col_inner(cols[b as int])),
                    ),
                    transfers3@.len() == ref_transfers(
                        ref_define(col_inner(cols[b as int])),
                    ).len(),
                    c <= transfers3@.len(),
                    tys_views(vec@) == blocks_upto(rs, cols, a as int) + quads_upto(
                        rs[a as int],
                        cols,
                        b as int,
                    ) + quad(rs[a as int], cols[b as int]).take(c as int),
                decreases transfers3@.len() - c,
            {
                proof {
                    assert(transfers3@[c as int]@ == ref_transfers(
                        ref_define(col_inner(cols[b as int])),
                    )[c as int]);
                }
                let y = transfers2[b].set_type(&transfers3[c].get_type()).get_type();
                let token = transfers1[a].set_type(&y).get_token();
                proof {
                    assert(token@ == quad(rs[a as int], cols[b as int])[c as int]);
                }
                let ghost prev = vec@;
                vec.push(token);
                proof {
                    lemma_tys_views_push(prev, token);
                    assert(quad(rs[a as int], cols[b as int]).take(c + 1 as int) =~= quad(
                        rs[a as int],
                        cols[b as int],
                    ).take(c as int).push(quad(rs[a as int], cols[b as int])[c as int]));
                    assert(tys_views(vec@) =~= blocks_upto(rs, cols, a as int) + quads_upto(
                        rs[a as int],
                        cols,
                        b as int,
                    ) + quad(rs[a as int], cols[b as int]).take(c + 1 as int));
                }
                c += 1;
            }
            proof {
                assert(quad(rs[a as int], cols[b as int]).take(c as int) =~= quad(
                    rs[a as int],
                    cols[b as int],
                ));
                assert(quads_upto(rs[a as int], cols, b + 1 as int) == quads_upto(
                    rs[a as int],
                    cols,
                    b as int,
                ) + quad(rs[a as int], cols[b as int]));
            }
            b += 1;
        }
        proof {
            assert(blocks_upto(rs, cols, a + 1 as int) == blocks_upto(rs, cols, a as int)
                + quads_upto(rs[a as int], cols, cols.len() as int));
        }
        a += 1;
    }
    vec
}

/// The header of an `impl Of<F> for T` item, as far as the expansion reads
/// it: the trait's path and the implementing type.
#[derive(Debug, PartialEq, Eq)]
pub struct ImplHeader {
    /// The path of the implemented trait, where the item implements one.
    pub trait_path: Option<TyPath>,
    pub self_ty: Ty,
}

/// The view of `ImplHeader`.
#[verifier::ext_equal]
pub struct ImplHeaderV {
    pub trait_path: Option<Seq<SegV>>,
    pub self_ty: TyV,
}

impl View for ImplHeader {
    type V = ImplHeaderV;

    open spec fn view(&self) -> ImplHeaderV {
        ImplHeaderV {
            trait_path: match &self.trait_path {
                Some(p) => Some(p@),
                None => None,
            },
            self_ty: self.self_ty@,
        }
    }
}

/// One candidate pair: a permutation of the source type, implemented for a
/// permutation of the target type.
#[derive(Debug, PartialEq, Eq)]
pub struct ImplPair {
    pub of: Ty,
    pub to: Ty,
}

/// The view of `ImplPair`.
#[verifier::ext_equal]
pub struct ImplPairV {
    pub of: TyV,
    pub to: TyV,
}

impl View for ImplPair {
    type V = ImplPairV;

    open spec fn view(&self) -> ImplPairV {
        ImplPairV { of: self.of@, to: self.to@ }
    }
}

/// The views of a list of candidate pairs, elementwise.
pub open spec fn pairs_views(s: Seq<ImplPair>) -> Seq<ImplPairV> {
    Seq::new(s.len(), |i: int| s[i]@)
}

/// The source type of the implemented trait: the first type argument of the
/// trait path's first segment.
pub open spec fn of_type_of(h: ImplHeaderV) -> TyV {
    first_type_arg_of(h.trait_path->Some_0[0].arguments)->Some_0
}

/// The header can be expanded without panic: a trait with a first type
/// argument is implemented, and both types' layers can be read.
pub open spec fn expand_definable(h: ImplHeaderV) -> bool {
    &&& h.trait_path matches Some(segs) && segs.len() > 0
    &&& crate::ast::args_readable(h.trait_path->Some_0[0].arguments)
    &&& first_type_arg_of(h.trait_path->Some_0[0].arguments) is Some
    &&& tmp_definable(of_type_of(h))
    &&& tmp_definable(h.self_ty)
}

/// One row of the cross product: the given source permutation paired with
/// every target permutation.
pub open spec fn pair_row(of: TyV, tos: Seq<TyV>) -> Seq<ImplPairV> {
    Seq::new(tos.len(), |b: int| ImplPairV { of: of, to: tos[b] })
}

/// The first `a` rows of the cross product.
pub open spec fn pairs_upto(ofs: Seq<TyV>, tos: Seq<TyV>, a: int) -> Seq<ImplPairV>
    decreases a,
{
    if a <= 0 {
        Seq::empty()
    } else {
        pairs_upto(ofs, tos, a - 1) + pair_row(ofs[a - 1], tos)
    }
}

/// What the attribute expansion enumerates: every permutation of the trait's
/// source type paired with every permutation of the implementing type.
pub open spec fn expand_spec(h: ImplHeaderV) -> Seq<ImplPairV> {
    let ofs = tmp_spec(of_type_of(h));
    let tos = tmp_spec(h.self_ty);
    pairs_upto(ofs, tos, ofs.len() as int)
}

/// Enumerates every candidate pair for an `impl Of<F> for T` header, exactly
/// as `expand_spec` lists them. The expansion itself synthesizes nothing yet:
/// the adapter around the library reports each candidate and leaves the item
/// unchanged. The caller does not hand in a header it cannot expand.
pub fn expand(item: &ImplHeader) -> (r: Vec<ImplPair>)
    requires
        expand_definable(item@),
    ensures
        pairs_views(r@) == expand_spec(item@),
{
    let of_type = {
        let u = match &item.trait_path {
            Some(p) => p,
            None => unreached(),
        };
        let seg = crate::shared::get_segment(u);
        let t = match type_from_args(&seg.arguments) {
            Ok(t) => t,
            Err(_) => unreached(),
        };
        t.clone_ty()
    };
    let ghost ofs = tmp_spec(of_type_of(item@));
    let ghost tos = tmp_spec(item@.self_ty);
    let of_perms = tmp(&of_type);
    let to_perms = tmp(&item.self_ty);
    let mut out: Vec<ImplPair> = Vec::new();
    let mut a: usize = 0;
    while a < of_perms.len()
        invariant
            tys_views(of_perms@) == ofs,
            tys_views(to_perms@) == tos,
            a <= of_perms@.len(),
            of_perms@.len() == ofs.len(),
            to_perms@.len() == tos.len(),
            pairs_views(out@) == pairs_upto(ofs, tos, a as int),
        decreases of_perms@.len() - a,
    {
        let mut b: usize = 0;
        while b < to_perms.len()
            invariant
                tys_views(of_perms@) == ofs,
                tys_views(to_perms@) == tos,
                a < of_perms@.len(),
                of_perms@.len() == ofs.len(),
                to_perms@.len() == tos.len(),
                b <= to_perms@.len(),
                pairs_views(out@) == pairs_upto(ofs, tos, a as int) + pair_row(
                    ofs[a as int],
                    tos,
                ).take(b as int),
            decreases to_perms@.len() - b,
        {
            let pair = ImplPair { of: of_perms[a].clone_ty(), to: to_perms[b].clone_ty() };
            proof {
                assert(pair@ == pair_row(ofs[a as int], tos)[b as int]);
            }
            let ghost prev = out@;
            out.push(pair);
            proof {
                assert(pairs_views(prev.push(pair)) =~= pairs_views(prev).push(pair@));
                assert(pair_row(ofs[a as int], tos).take(b + 1 as int) =~= pair_row(
                    ofs[a as int],
                    tos,
                ).take(b as int).push(pair_row(ofs[a as int], tos)[b as int]));
            }
            b += 1;
        }
        proof {
            assert(pair_row(ofs[a as int], tos).take(b as int) =~= pair_row(ofs[a as int], tos));
            assert(pairs_upto(ofs, tos, a + 1 as int) == pairs_upto(ofs, tos, a as int) + pair_row(
                ofs[a as int],
                tos,
            ));
        }
        a += 1;
    }
    out
}


/// Reading the layer back off an assembled vector agrees with what was
/// assembled: the collection layer survives its own token.
pub proof fn lemma_vect_roundtrip(t: TyV)
    ensures
        col_definable(col_token(ColV::Vect(t))),
        col_define(col_token(ColV::Vect(t))) == ColV::Vect(t),
{
}

/// Reading the layer back off an assembled array agrees with what was
/// assembled.
pub proof fn lemma_arr_roundtrip(t: TyV, n: usize)
    ensures
        col_definable(col_token(ColV::Arr(t, n))),
        col_define(col_token(ColV::Arr(t, n))) == ColV::Arr(t, n),
{
}

/// Reading the layer back off an assembled counted pointer agrees with what
/// was assembled, with or without the reference around it.
pub proof fn lemma_rc_roundtrip(t: TyV)
    ensures
        ref_definable(ref_token(RefV::Rc(t))),
        ref_define(ref_token(RefV::Rc(t))) == RefV::Rc(t),
        ref_definable(ref_token(RefV::RefRc(t))),
        ref_define(ref_token(RefV::RefRc(t))) == RefV::RefRc(t),
{
}

/// How many candidates the enumeration yields: four outer reference layers,
/// four inner ones, and one or two collection layers in between — sixteen
/// for most types, thirty-two where the collection layer is an array.
pub proof fn lemma_tmp_spec_len(t: TyV)
    ensures
        tmp_spec(t).len() == 16 * col_transfers(
            col_define(ref_inner(ref_define(t))),
        ).len(),
        col_define(ref_inner(ref_define(t))) matches ColV::Arr(_, _) ==> tmp_spec(t).len() == 32,
        !(col_define(ref_inner(ref_define(t))) matches ColV::Arr(_, _)) ==> tmp_spec(t).len()
            == 16,
{
    let rs = ref_transfers(ref_define(t));
    let cols = col_transfers(col_define(ref_inner(ref_define(t))));
    assert forall|r1: RefV, b: int| 0 <= b < cols.len() implies #[trigger] quads_upto(
        r1,
        cols,
        b + 1,
    ).len() == quads_upto(r1, cols, b).len() + 4 by {
        assert(quad(r1, cols[b]).len() == 4);
    }
    assert forall|r1: RefV| #[trigger] quads_upto(r1, cols, cols.len() as int).len() == 4
        * cols.len() by {
        if cols.len() == 1 {
            assert(quads_upto(r1, cols, 0).len() == 0);
            assert(quads_upto(r1, cols, 1).len() == 4);
        } else {
            assert(cols.len() == 2);
            assert(quads_upto(r1, cols, 0).len() == 0);
            assert(quads_upto(r1, cols, 1).len() == 4);
            assert(quads_upto(r1, cols, 2).len() == 8);
        }
    }
    assert(blocks_upto(rs, cols, 0).len() == 0);
    assert(blocks_upto(rs, cols, 1).len() == 4 * cols.len());
    assert(blocks_upto(rs, cols, 2).len() == 8 * cols.len());
    assert(blocks_upto(rs, cols, 3).len() == 12 * cols.len());
    assert(blocks_upto(rs, cols, 4).len() == 16 * cols.len());
}


proof fn lemma_pairs_upto_len(ofs: Seq<TyV>, tos: Seq<TyV>, a: int)
    requires
        0 <= a,
    ensures
        pairs_upto(ofs, tos, a).len() == a * (tos.len() as int),
    decreases a,
{
    let l = tos.len() as int;
    if a > 0 {
        lemma_pairs_upto_len(ofs, tos, a - 1);
        assert(pairs_upto(ofs, tos, a) == pairs_upto(ofs, tos, a - 1) + pair_row(
            ofs[a - 1],
            tos,
        ));
        assert(pair_row(ofs[a - 1], tos).len() == l);
        assert((a - 1) * l + l == a * l) by (nonlinear_arith);
        assert(pairs_upto(ofs, tos, a).len() == (a - 1) * l + l);
    } else {
        assert(a == 0);
        assert(pairs_upto(ofs, tos, 0).len() == 0);
    }
}

/// The expansion pairs everything with everything: it yields exactly one
/// candidate per pair of a source permutation and a target permutation.
pub proof fn lemma_expand_spec_len(h: ImplHeaderV)
    ensures
        expand_spec(h).len() == tmp_spec(of_type_of(h)).len() * tmp_spec(h.self_ty).len(),
{
    let ofs = tmp_spec(of_type_of(h));
    let tos = tmp_spec(h.self_ty);
    assert((ofs.len() as int) * (tos.len() as int) == ofs.len() * tos.len()) by (nonlinear_arith);
    lemma_pairs_upto_len(
        tmp_spec(of_type_of(h)),
        tmp_spec(h.self_ty),
        tmp_spec(of_type_of(h)).len() as int,
    );
}

} // verus!
