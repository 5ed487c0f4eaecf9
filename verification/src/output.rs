//! The model of what the expansions synthesize: trait implementations and
//! inherent methods, described structurally. A thin adapter outside this
//! library prints these as source text.

use vstd::prelude::*;
use crate::ast::{Ty, TyV, GenericsDef, GenericParamV};

verus! {

/// The expression that fills one field of a synthesized `default`.
#[derive(Debug, PartialEq, Eq)]
pub enum DefaultExpr {
    /// The expression given in the field's attribute, as its tokens.
    Given(String),
    /// A call of the standard default of the field's type.
    DefaultOf(Ty),
}

/// The view of `DefaultExpr`.
#[verifier::ext_equal]
pub enum DefaultExprV {
    Given(Seq<char>),
    DefaultOf(TyV),
}

impl View for DefaultExpr {
    type V = DefaultExprV;

    open spec fn view(&self) -> DefaultExprV {
        match self {
            DefaultExpr::Given(tokens) => DefaultExprV::Given(tokens@),
            DefaultExpr::DefaultOf(t) => DefaultExprV::DefaultOf(t@),
        }
    }
}

/// One field of a synthesized `default` body.
#[derive(Debug, PartialEq, Eq)]
pub struct FieldDefault {
    /// The field's name; nothing for a tuple field.
    pub ident: Option<String>,
    pub value: DefaultExpr,
}

/// The view of `FieldDefault`.
#[verifier::ext_equal]
pub struct FieldDefaultV {
    pub ident: Option<Seq<char>>,
    pub value: DefaultExprV,
}

impl View for FieldDefault {
    type V = FieldDefaultV;

    open spec fn view(&self) -> FieldDefaultV {
        FieldDefaultV {
            ident: match self.ident {
                Some(s) => Some(s@),
                None => None,
            },
            value: self.value@,
        }
    }
}

/// The body of a synthesized `default`: how each field is filled.
#[derive(Debug, PartialEq, Eq)]
pub enum DefaultBody {
    Named(Vec<FieldDefault>),
    Unnamed(Vec<FieldDefault>),
    Unit,
}

/// The view of `DefaultBody`.
#[verifier::ext_equal]
pub enum DefaultBodyV {
    Named(Seq<FieldDefaultV>),
    Unnamed(Seq<FieldDefaultV>),
    Unit,
}

pub open spec fn defaults_views(fs: Seq<FieldDefault>) -> Seq<FieldDefaultV> {
    Seq::new(fs.len(), |i: int| fs[i]@)
}

impl View for DefaultBody {
    type V = DefaultBodyV;

    open spec fn view(&self) -> DefaultBodyV {
        match self {
            DefaultBody::Named(fs) => DefaultBodyV::Named(defaults_views(fs@)),
            DefaultBody::Unnamed(fs) => DefaultBodyV::Unnamed(defaults_views(fs@)),
            DefaultBody::Unit => DefaultBodyV::Unit,
        }
    }
}

/// A synthesized implementation of the standard `Default`.
#[derive(Debug, PartialEq, Eq)]
pub struct DefaultImpl {
    /// The name of the type implemented for.
    pub ident: String,
    /// The declaration's generics, a `Default` bound added to each type
    /// parameter that lacks one.
    pub generics: GenericsDef,
    /// The default variant, for an enumeration.
    pub variant: Option<String>,
    pub body: DefaultBody,
}

/// The view of `DefaultImpl`.
#[verifier::ext_equal]
pub struct DefaultImplV {
    pub ident: Seq<char>,
    pub generics: Seq<GenericParamV>,
    pub variant: Option<Seq<char>>,
    pub body: DefaultBodyV,
}

impl View for DefaultImpl {
    type V = DefaultImplV;

    open spec fn view(&self) -> DefaultImplV {
        DefaultImplV {
            ident: self.ident@,
            generics: self.generics@,
            variant: match self.variant {
                Some(v) => Some(v@),
                None => None,
            },
            body: self.body@,
        }
    }
}

/// One parameter of a synthesized constructor.
#[derive(Debug, PartialEq, Eq)]
pub struct ParamDef {
    pub name: String,
    pub ty: Ty,
}

/// The view of `ParamDef`.
#[verifier::ext_equal]
pub struct ParamV {
    pub name: Seq<char>,
    pub ty: TyV,
}

impl View for ParamDef {
    type V = ParamV;

    open spec fn view(&self) -> ParamV {
        ParamV { name: self.name@, ty: self.ty@ }
    }
}

/// One synthesized inherent method.
#[derive(Debug, PartialEq, Eq)]
pub enum MethodDef {
    /// `pub fn new(...) -> Self` filling every field in order.
    New(Vec<ParamDef>),
    /// `pub fn set_<field>(&mut self, value: <ty>) -> Self`.
    Setter { name: String, field: String, ty: Ty },
    /// `pub fn get_<field>(&self) -> <ty>`.
    Getter { name: String, field: String, ty: Ty },
}

/// The view of `MethodDef`.
#[verifier::ext_equal]
pub enum MethodV {
    New(Seq<ParamV>),
    Setter { name: Seq<char>, field: Seq<char>, ty: TyV },
    Getter { name: Seq<char>, field: Seq<char>, ty: TyV },
}

pub open spec fn params_views(ps: Seq<ParamDef>) -> Seq<ParamV> {
    Seq::new(ps.len(), |i: int| ps[i]@)
}

impl View for MethodDef {
    type V = MethodV;

    open spec fn view(&self) -> MethodV {
        match self {
            MethodDef::New(params) => MethodV::New(params_views(params@)),
            MethodDef::Setter { name, field, ty } => MethodV::Setter {
                name: name@,
                field: field@,
                ty: ty@,
            },
            MethodDef::Getter { name, field, ty } => MethodV::Getter {
                name: name@,
                field: field@,
                ty: ty@,
            },
        }
    }
}

/// A synthesized inherent `impl` block around a list of methods.
#[derive(Debug, PartialEq, Eq)]
pub struct InherentImpl {
    pub ident: String,
    pub generics: GenericsDef,
    pub methods: Vec<MethodDef>,
}

/// The view of `InherentImpl`.
#[verifier::ext_equal]
pub struct InherentImplV {
    pub ident: Seq<char>,
    pub generics: Seq<GenericParamV>,
    pub methods: Seq<MethodV>,
}

pub open spec fn methods_views(ms: Seq<MethodDef>) -> Seq<MethodV> {
    Seq::new(ms.len(), |i: int| ms[i]@)
}

impl View for InherentImpl {
    type V = InherentImplV;

    open spec fn view(&self) -> InherentImplV {
        InherentImplV {
            ident: self.ident@,
            generics: self.generics@,
            methods: methods_views(self.methods@),
        }
    }
}

/// Where a synthesized dereference points.
#[derive(Debug, PartialEq, Eq)]
pub enum DerefTarget {
    /// A tuple field, by position.
    Pos(usize),
    /// A named field.
    Name(String),
}

/// The view of `DerefTarget`.
#[verifier::ext_equal]
pub enum DerefTargetV {
    Pos(usize),
    Name(Seq<char>),
}

impl View for DerefTarget {
    type V = DerefTargetV;

    open spec fn view(&self) -> DerefTargetV {
        match self {
            DerefTarget::Pos(p) => DerefTargetV::Pos(*p),
            DerefTarget::Name(n) => DerefTargetV::Name(n@),
        }
    }
}

/// A synthesized implementation of the standard dereference traits.
#[derive(Debug, PartialEq, Eq)]
pub struct DerefImpl {
    pub ident: String,
    pub generics: GenericsDef,
    /// The field returned on dereference.
    pub target: DerefTarget,
    /// That field's type, the dereference target type.
    pub ty: Ty,
}

/// The view of `DerefImpl`.
#[verifier::ext_equal]
pub struct DerefImplV {
    pub ident: Seq<char>,
    pub generics: Seq<GenericParamV>,
    pub target: DerefTargetV,
    pub ty: TyV,
}

impl View for DerefImpl {
    type V = DerefImplV;

    open spec fn view(&self) -> DerefImplV {
        DerefImplV {
            ident: self.ident@,
            generics: self.generics@,
            target: self.target@,
            ty: self.ty@,
        }
    }
}

/// A synthesized display implementation that forwards to the debug form.
#[derive(Debug, PartialEq, Eq)]
pub struct DisplayImpl {
    pub ident: String,
    pub generics: GenericsDef,
}

/// The view of `DisplayImpl`.
#[verifier::ext_equal]
pub struct DisplayImplV {
    pub ident: Seq<char>,
    pub generics: Seq<GenericParamV>,
}

impl View for DisplayImpl {
    type V = DisplayImplV;

    open spec fn view(&self) -> DisplayImplV {
        DisplayImplV { ident: self.ident@, generics: self.generics@ }
    }
}

} // verus!
