//! The crate's own model of the host language's type grammar and of the
//! declarations that the expansion logic reads: paths, references, arrays,
//! attributes, fields, generics, structures and enumerations.
//!
//! Each executable type has a ghost mirror (its view, named with a `V`
//! suffix) over `Seq` and mathematical values; every contract in the crate
//! speaks of those views.

use vstd::prelude::*;
use vstd::pervasive::arbitrary;

verus! {

/// Relies on str's PartialEq: two string slices are equal exactly when their
/// character sequences are equal.
pub assume_specification[ <str as PartialEq>::eq ](a: &str, b: &str) -> (r: bool)
    ensures
        r == (a@ == b@),
;

/// True when a string holds exactly the given text.
pub fn ident_is(s: &String, lit: &str) -> (r: bool)
    ensures
        r == (s@ == lit@),
{
    s.as_str().eq(lit)
}

/// The generic arguments that follow a path segment, e.g. the `<i32>` of `Vec<i32>`.
#[derive(Debug, PartialEq, Eq)]
pub enum PathArgs {
    /// No arguments at all: `i32`.
    Empty,
    /// Angle-bracketed arguments: `Vec<i32>`, `Map<'a, K>`.
    AngleBracketed(Vec<GenArg>),
    /// Parenthesized arguments, as in `Fn(A) -> B`; nothing here reads inside them.
    Parenthesized,
}

/// One generic argument inside angle brackets.
#[derive(Debug, PartialEq, Eq)]
pub enum GenArg {
    TypeArg(Ty),
    Lifetime(String),
}

/// One segment of a path: an identifier with its generic arguments.
#[derive(Debug, PartialEq, Eq)]
pub struct Seg {
    pub ident: String,
    pub arguments: PathArgs,
}

/// A path type, e.g. `i32`, `Vec<u8>` or `std::rc::Rc<T>`.
#[derive(Debug, PartialEq, Eq)]
pub struct TyPath {
    pub segments: Vec<Seg>,
}

/// The shape of a type mention, as far as the expansion logic reads it.
#[derive(Debug, PartialEq, Eq)]
pub enum Ty {
    /// A path type.
    Path(TyPath),
    /// A reference `&T`.
    Reference(Box<Ty>),
    /// An array `[T; n]` with a literal length.
    Array(Box<Ty>, usize),
}

/// The view of `PathArgs`.
#[verifier::ext_equal]
pub enum PathArgsV {
    Empty,
    AngleBracketed(Seq<GenArgV>),
    Parenthesized,
}

/// The view of `GenArg`.
#[verifier::ext_equal]
pub enum GenArgV {
    TypeArg(Box<TyV>),
    Lifetime(Seq<char>),
}

/// The view of `Seg`.
#[verifier::ext_equal]
pub struct SegV {
    pub ident: Seq<char>,
    pub arguments: PathArgsV,
}

/// The view of `Ty`: the same grammar over mathematical values.
#[verifier::ext_equal]
pub enum TyV {
    Path(Seq<SegV>),
    Reference(Box<TyV>),
    Array(Box<TyV>, usize),
}

pub open spec fn ty_view(t: Ty) -> TyV
    decreases t,
{
    match t {
        Ty::Path(p) => TyV::Path(segs_views(p.segments@)),
        Ty::Reference(inner) => TyV::Reference(Box::new(ty_view(*inner))),
        Ty::Array(inner, n) => TyV::Array(Box::new(ty_view(*inner)), n),
    }
}

/// The views of a list of segments, elementwise.
pub open spec fn segs_views(s: Seq<Seg>) -> Seq<SegV>
    decreases s,
{
    Seq::new(
        s.len(),
        |i: int|
            if 0 <= i < s.len() {
                seg_view(s[i])
            } else {
                arbitrary()
            },
    )
}

pub open spec fn seg_view(s: Seg) -> SegV
    decreases s,
{
    SegV { ident: s.ident@, arguments: args_view(s.arguments) }
}

pub open spec fn args_view(a: PathArgs) -> PathArgsV
    decreases a,
{
    match a {
        PathArgs::Empty => PathArgsV::Empty,
        PathArgs::Parenthesized => PathArgsV::Parenthesized,
        PathArgs::AngleBracketed(args) => PathArgsV::AngleBracketed(gargs_views(args@)),
    }
}

/// The views of a list of types, elementwise.
pub open spec fn tys_views(s: Seq<Ty>) -> Seq<TyV> {
    Seq::new(s.len(), |i: int| ty_view(s[i]))
}

/// The views of a list of generic arguments, elementwise.
pub open spec fn gargs_views(s: Seq<GenArg>) -> Seq<GenArgV>
    decreases s,
{
    Seq::new(
        s.len(),
        |i: int|
            if 0 <= i < s.len() {
                arg_view(s[i])
            } else {
                arbitrary()
            },
    )
}

pub open spec fn arg_view(g: GenArg) -> GenArgV
    decreases g,
{
    match g {
        GenArg::TypeArg(t) => GenArgV::TypeArg(Box::new(ty_view(t))),
        GenArg::Lifetime(l) => GenArgV::Lifetime(l@),
    }
}

impl View for Ty {
    type V = TyV;

    open spec fn view(&self) -> TyV {
        ty_view(*self)
    }
}

impl View for Seg {
    type V = SegV;

    open spec fn view(&self) -> SegV {
        seg_view(*self)
    }
}

impl View for PathArgs {
    type V = PathArgsV;

    open spec fn view(&self) -> PathArgsV {
        args_view(*self)
    }
}

impl View for GenArg {
    type V = GenArgV;

    open spec fn view(&self) -> GenArgV {
        arg_view(*self)
    }
}

impl View for TyPath {
    type V = Seq<SegV>;

    open spec fn view(&self) -> Seq<SegV> {
        segs_views(self.segments@)
    }
}

/// The arguments can be read without panic: an angle-bracketed argument
/// list is never empty.
pub open spec fn args_readable(a: PathArgsV) -> bool {
    a matches PathArgsV::AngleBracketed(args) ==> args.len() > 0
}

/// The first angle-bracketed argument, when it is a type.
pub open spec fn first_type_arg_of(a: PathArgsV) -> Option<TyV> {
    match a {
        PathArgsV::AngleBracketed(args) => {
            if args.len() > 0 && args[0] is TypeArg {
                Some(*args[0]->TypeArg_0)
            } else {
                None
            }
        },
        _ => None,
    }
}

impl SegV {
    /// The segment's arguments can be read without panic.
    pub open spec fn args_readable(self) -> bool {
        args_readable(self.arguments)
    }

    /// The first angle-bracketed argument of the segment, when it is a type.
    pub open spec fn first_type_arg(self) -> Option<TyV> {
        first_type_arg_of(self.arguments)
    }
}

impl Ty {
    /// Deep copy; the copy has the same view.
    pub fn clone_ty(&self) -> (r: Ty)
        ensures
            r@ == self@,
        decreases *self,
    {
        match self {
            Ty::Path(path) => {
                let new_segs = clone_segs(&path.segments);
                proof {
                    assert forall|j: int| 0 <= j < new_segs@.len() implies seg_view(new_segs@[j])
                        == seg_view(path.segments@[j]) by {
                        assert(new_segs@[j]@ == path.segments@[j]@);
                    }
                    assert(segs_views(new_segs@) =~= segs_views(path.segments@));
                }
                let r = Ty::Path(TyPath { segments: new_segs });
                proof {
                    assert(r@ == TyV::Path(segs_views(new_segs@)));
                    assert(self@ == TyV::Path(segs_views(path.segments@)));
                }
                r
            },
            Ty::Reference(inner) => Ty::Reference(Box::new(inner.clone_ty())),
            Ty::Array(inner, n) => Ty::Array(Box::new(inner.clone_ty()), *n),
        }
    }
}

/// Deep copy of a segment list; the copy's segments have the same views.
pub fn clone_segs(segs: &Vec<Seg>) -> (r: Vec<Seg>)
    ensures
        r@.len() == segs@.len(),
        forall|j: int| 0 <= j < segs@.len() ==> #[trigger] r@[j]@ == segs@[j]@,
    decreases *segs,
{
    let mut out: Vec<Seg> = Vec::new();
    let mut i: usize = 0;
    while i < segs.len()
        invariant
            i <= segs@.len(),
            out@.len() == i as int,
            forall|j: int| 0 <= j < i ==> #[trigger] out@[j]@ == segs@[j]@,
        decreases segs@.len() - i,
    {
        proof {
            assert(decreases_to!(*segs => segs@[i as int]));
        }
        out.push(segs[i].clone_seg());
        i += 1;
    }
    out
}

impl Seg {
    /// Deep copy; the copy has the same view.
    pub fn clone_seg(&self) -> (r: Seg)
        ensures
            r@ == self@,
        decreases *self,
    {
        Seg { ident: self.ident.clone(), arguments: self.arguments.clone_args() }
    }
}

impl PathArgs {
    /// Deep copy; the copy has the same view.
    pub fn clone_args(&self) -> (r: PathArgs)
        ensures
            r@ == self@,
        decreases *self,
    {
        match self {
            PathArgs::Empty => PathArgs::Empty,
            PathArgs::Parenthesized => PathArgs::Parenthesized,
            PathArgs::AngleBracketed(args) => {
                let mut out: Vec<GenArg> = Vec::new();
                let mut i: usize = 0;
                while i < args.len()
                    invariant
                        *self == PathArgs::AngleBracketed(*args),
                        i <= args@.len(),
                        out@.len() == i as int,
                        forall|j: int| 0 <= j < i ==> #[trigger] out@[j]@ == args@[j]@,
                    decreases args@.len() - i,
                {
                    proof {
                        assert(decreases_to!(*self => self->AngleBracketed_0));
                        assert(decreases_to!(*args => args@[i as int]));
                    }
                    out.push(args[i].clone_arg());
                    i += 1;
                }
                proof {
                    assert forall|j: int| 0 <= j < out@.len() implies arg_view(out@[j]) == arg_view(
                        args@[j],
                    ) by {
                        assert(out@[j]@ == args@[j]@);
                    }
                    assert(gargs_views(out@) =~= gargs_views(args@));
                }
                let r = PathArgs::AngleBracketed(out);
                proof {
                    assert(r@ == PathArgsV::AngleBracketed(gargs_views(out@)));
                    assert(self@ == PathArgsV::AngleBracketed(gargs_views(args@)));
                }
                r
            },
        }
    }
}

impl GenArg {
    /// Deep copy; the copy has the same view.
    pub fn clone_arg(&self) -> (r: GenArg)
        ensures
            r@ == self@,
        decreases *self,
    {
        match self {
            GenArg::TypeArg(t) => GenArg::TypeArg(t.clone_ty()),
            GenArg::Lifetime(l) => GenArg::Lifetime(l.clone()),
        }
    }
}

/// An attribute on a field or a variant: `#[name]` or `#[name(tokens)]`.
#[derive(Debug, PartialEq, Eq)]
pub struct Attr {
    pub name: String,
    /// The tokens between the parentheses, or nothing for a bare `#[name]`.
    pub tokens: Option<String>,
}

/// The view of `Attr`.
#[verifier::ext_equal]
pub struct AttrV {
    pub name: Seq<char>,
    pub tokens: Option<Seq<char>>,
}

impl View for Attr {
    type V = AttrV;

    open spec fn view(&self) -> AttrV {
        AttrV {
            name: self.name@,
            tokens: match self.tokens {
                Some(t) => Some(t@),
                None => None,
            },
        }
    }
}

/// The views of a list of attributes, elementwise.
pub open spec fn attrs_views(s: Seq<Attr>) -> Seq<AttrV> {
    Seq::new(s.len(), |i: int| s[i]@)
}

/// One field of a structure or of a variant.
#[derive(Debug, PartialEq, Eq)]
pub struct FieldDef {
    /// The field's name; nothing for a tuple field.
    pub ident: Option<String>,
    pub ty: Ty,
    pub attrs: Vec<Attr>,
}

/// The view of `FieldDef`.
#[verifier::ext_equal]
pub struct FieldV {
    pub ident: Option<Seq<char>>,
    pub ty: TyV,
    pub attrs: Seq<AttrV>,
}

impl View for FieldDef {
    type V = FieldV;

    open spec fn view(&self) -> FieldV {
        FieldV {
            ident: match self.ident {
                Some(s) => Some(s@),
                None => None,
            },
            ty: self.ty@,
            attrs: attrs_views(self.attrs@),
        }
    }
}

/// The fields of a structure or of a variant.
#[derive(Debug, PartialEq, Eq)]
pub enum Fields {
    Named(Vec<FieldDef>),
    Unnamed(Vec<FieldDef>),
    Unit,
}

/// The view of `Fields`.
#[verifier::ext_equal]
pub enum FieldsV {
    Named(Seq<FieldV>),
    Unnamed(Seq<FieldV>),
    Unit,
}

pub open spec fn fields_seq_view(fs: Seq<FieldDef>) -> Seq<FieldV> {
    Seq::new(fs.len(), |i: int| fs[i]@)
}

impl View for Fields {
    type V = FieldsV;

    open spec fn view(&self) -> FieldsV {
        match self {
            Fields::Named(fs) => FieldsV::Named(fields_seq_view(fs@)),
            Fields::Unnamed(fs) => FieldsV::Unnamed(fields_seq_view(fs@)),
            Fields::Unit => FieldsV::Unit,
        }
    }
}

impl FieldsV {
    /// Every named field carries a name.
    pub open spec fn wf(self) -> bool {
        self matches FieldsV::Named(fs) ==> forall|i: int|
            0 <= i < fs.len() ==> #[trigger] fs[i].ident is Some
    }
}

/// A type parameter of a declaration, with the paths of its bounds.
#[derive(Debug, PartialEq, Eq)]
pub struct TypeParamDef {
    pub ident: String,
    pub bounds: Vec<String>,
}

/// The view of `TypeParamDef`.
#[verifier::ext_equal]
pub struct TypeParamV {
    pub ident: Seq<char>,
    pub bounds: Seq<Seq<char>>,
}

impl View for TypeParamDef {
    type V = TypeParamV;

    open spec fn view(&self) -> TypeParamV {
        TypeParamV {
            ident: self.ident@,
            bounds: Seq::new(self.bounds@.len(), |i: int| self.bounds@[i]@),
        }
    }
}

/// One generic parameter of a declaration.
#[derive(Debug, PartialEq, Eq)]
pub enum GenericParamDef {
    Type(TypeParamDef),
    Lifetime(String),
    Const(String),
}

/// The view of `GenericParamDef`.
#[verifier::ext_equal]
pub enum GenericParamV {
    Type(TypeParamV),
    Lifetime(Seq<char>),
    Const(Seq<char>),
}

impl View for GenericParamDef {
    type V = GenericParamV;

    open spec fn view(&self) -> GenericParamV {
        match self {
            GenericParamDef::Type(t) => GenericParamV::Type(t@),
            GenericParamDef::Lifetime(l) => GenericParamV::Lifetime(l@),
            GenericParamDef::Const(c) => GenericParamV::Const(c@),
        }
    }
}

/// The generic parameters of a declaration.
#[derive(Debug, PartialEq, Eq)]
pub struct GenericsDef {
    pub params: Vec<GenericParamDef>,
}

impl View for GenericsDef {
    type V = Seq<GenericParamV>;

    open spec fn view(&self) -> Seq<GenericParamV> {
        Seq::new(self.params@.len(), |i: int| self.params@[i]@)
    }
}

/// A structure declaration, as far as the expansion logic reads it.
#[derive(Debug, PartialEq, Eq)]
pub struct StructDef {
    pub ident: String,
    pub generics: GenericsDef,
    pub fields: Fields,
}

/// The view of `StructDef`.
#[verifier::ext_equal]
pub struct StructV {
    pub ident: Seq<char>,
    pub generics: Seq<GenericParamV>,
    pub fields: FieldsV,
}

impl View for StructDef {
    type V = StructV;

    open spec fn view(&self) -> StructV {
        StructV { ident: self.ident@, generics: self.generics@, fields: self.fields@ }
    }
}

/// One variant of an enumeration.
#[derive(Debug, PartialEq, Eq)]
pub struct VariantDef {
    pub ident: String,
    pub attrs: Vec<Attr>,
    pub fields: Fields,
}

/// The view of `VariantDef`.
#[verifier::ext_equal]
pub struct VariantV {
    pub ident: Seq<char>,
    pub attrs: Seq<AttrV>,
    pub fields: FieldsV,
}

impl View for VariantDef {
    type V = VariantV;

    open spec fn view(&self) -> VariantV {
        VariantV {
            ident: self.ident@,
            attrs: attrs_views(self.attrs@),
            fields: self.fields@,
        }
    }
}

/// An enumeration declaration, as far as the expansion logic reads it.
#[derive(Debug, PartialEq, Eq)]
pub struct EnumDef {
    pub ident: String,
    pub generics: GenericsDef,
    pub variants: Vec<VariantDef>,
}

/// The view of `EnumDef`.
#[verifier::ext_equal]
pub struct EnumV {
    pub ident: Seq<char>,
    pub generics: Seq<GenericParamV>,
    pub variants: Seq<VariantV>,
}

impl View for EnumDef {
    type V = EnumV;

    open spec fn view(&self) -> EnumV {
        EnumV {
            ident: self.ident@,
            generics: self.generics@,
            variants: Seq::new(self.variants@.len(), |i: int| self.variants@[i]@),
        }
    }
}

/// A declaration that a derive works on: a structure or an enumeration.
#[derive(Debug, PartialEq, Eq)]
pub enum ItemDef {
    Struct(StructDef),
    Enum(EnumDef),
}

/// The view of `ItemDef`.
#[verifier::ext_equal]
pub enum ItemV {
    Struct(StructV),
    Enum(EnumV),
}

impl View for ItemDef {
    type V = ItemV;

    open spec fn view(&self) -> ItemV {
        match self {
            ItemDef::Struct(s) => ItemV::Struct(s@),
            ItemDef::Enum(e) => ItemV::Enum(e@),
        }
    }
}


/// Copy of an optional name; the copy has the same view.
pub fn clone_opt_string(o: &Option<String>) -> (r: Option<String>)
    ensures
        r is Some <==> *o is Some,
        r matches Some(s) ==> o matches Some(os) && s@ == os@,
{
    match o {
        Some(s) => Some(s.clone()),
        None => None,
    }
}

/// Deep copy of a list of strings; the copy's entries have the same views.
pub fn clone_strings(v: &Vec<String>) -> (r: Vec<String>)
    ensures
        r@.len() == v@.len(),
        forall|j: int| 0 <= j < v@.len() ==> #[trigger] r@[j]@ == v@[j]@,
{
    let mut out: Vec<String> = Vec::new();
    let mut i: usize = 0;
    while i < v.len()
        invariant
            i <= v@.len(),
            out@.len() == i as int,
            forall|j: int| 0 <= j < i ==> #[trigger] out@[j]@ == v@[j]@,
        decreases v@.len() - i,
    {
        out.push(v[i].clone());
        i += 1;
    }
    out
}

impl GenericParamDef {
    /// Deep copy; the copy has the same view.
    pub fn clone_param(&self) -> (r: GenericParamDef)
        ensures
            r@ == self@,
    {
        match self {
            GenericParamDef::Type(tp) => {
                let bounds = clone_strings(&tp.bounds);
                let r = GenericParamDef::Type(
                    TypeParamDef { ident: tp.ident.clone(), bounds },
                );
                proof {
                    assert(r@ =~~= self@);
                }
                r
            },
            GenericParamDef::Lifetime(l) => GenericParamDef::Lifetime(l.clone()),
            GenericParamDef::Const(c) => GenericParamDef::Const(c.clone()),
        }
    }
}

impl GenericsDef {
    /// Deep copy; the copy has the same view.
    pub fn clone_generics(&self) -> (r: GenericsDef)
        ensures
            r@ == self@,
    {
        let mut out: Vec<GenericParamDef> = Vec::new();
        let mut i: usize = 0;
        while i < self.params.len()
            invariant
                i <= self.params@.len(),
                out@.len() == i as int,
                forall|j: int| 0 <= j < i ==> #[trigger] out@[j]@ == self.params@[j]@,
            decreases self.params@.len() - i,
        {
            out.push(self.params[i].clone_param());
            i += 1;
        }
        let r = GenericsDef { params: out };
        proof {
            assert(r@ =~~= self@);
        }
        r
    }
}

} // verus!
