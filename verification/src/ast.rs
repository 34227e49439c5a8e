//! The normalized, already-parsed form of an interface definition.
//!
//! An external parser lowers the host language's trait syntax into these
//! types: every name is interned to a `NameId` and every source position to a
//! `SpanId`, so the compilation pipeline works on plain values only.

use vstd::prelude::*;

verus! {

/// An interned identifier, handed out by the external parser.
pub type NameId = u32;

/// An interned source location, used only for diagnostics.
pub type SpanId = u32;

/// A borrow-scope (lifetime) annotation as it appears in a parsed type.
///
/// `Static` is the canonical unbounded marker that erasure rewrites every
/// other annotation to.
#[derive(Clone, Copy, Debug, PartialEq, Eq, Structural)]
pub enum Lifetime {
    /// The unbounded `'static` scope.
    Static,
    /// A named scope parameter, e.g. `'a`.
    Named(u32),
}

/// The generic arguments of a path type, in declaration order.
#[derive(Debug, PartialEq)]
pub enum TyArgs {
    /// No more arguments.
    Nil,
    /// A lifetime argument followed by the rest.
    ConsLt(Lifetime, Box<TyArgs>),
    /// A type argument followed by the rest.
    ConsTy(Box<Ty>, Box<TyArgs>),
}

/// A parsed type, restricted to the shapes a supported method may mention.
#[derive(Debug, PartialEq)]
pub enum Ty {
    /// The interface's own receiver type, written `Self`.
    SelfTy,
    /// A path with its generic arguments, e.g. `i32` or `Option<&'a i32>`.
    Path { name: NameId, args: TyArgs },
    /// `&'lt T` or `&'lt mut T`; the lifetime may be elided.
    Reference { lt: Option<Lifetime>, is_mut: bool, pointee: Box<Ty> },
}

impl Clone for TyArgs {
    fn clone(&self) -> (r: Self)
        ensures
            r == *self,
        decreases self,
    {
        match self {
            TyArgs::Nil => TyArgs::Nil,
            TyArgs::ConsLt(lt, rest) => TyArgs::ConsLt(*lt, Box::new((**rest).clone())),
            TyArgs::ConsTy(ty, rest) => TyArgs::ConsTy(
                Box::new((**ty).clone()),
                Box::new((**rest).clone()),
            ),
        }
    }
}

impl Clone for Ty {
    fn clone(&self) -> (r: Self)
        ensures
            r == *self,
        decreases self,
    {
        match self {
            Ty::SelfTy => Ty::SelfTy,
            Ty::Path { name, args } => Ty::Path { name: *name, args: args.clone() },
            Ty::Reference { lt, is_mut, pointee } => Ty::Reference {
                lt: *lt,
                is_mut: *is_mut,
                pointee: Box::new((**pointee).clone()),
            },
        }
    }
}

/// One parameter of a method as the parser hands it over.
#[derive(Debug)]
pub enum FnInput {
    /// The receiver parameter (`self`, `&self`, `&mut self`, or an explicit
    /// `self: T` form), carrying its declared type.
    Receiver { ty: Ty },
    /// An ordinary typed parameter.
    Typed { ty: Ty },
}

/// A generic parameter of a method.
#[derive(Clone, Copy, Debug, PartialEq, Eq, Structural)]
pub enum GenericParam {
    /// A lifetime parameter, e.g. `<'a>`.
    Lifetime(u32),
    /// A type parameter.
    TyParam(u32),
    /// A const parameter.
    ConstParam(u32),
}

/// One predicate of a `where` clause.
#[derive(Clone, Copy, Debug, PartialEq, Eq, Structural)]
pub enum WherePredicate {
    /// A bound between lifetimes, e.g. `'a: 'b`.
    LifetimeBound(u32),
    /// Any bound on a type.
    TypeBound(u32),
}

/// A parsed method signature.
#[derive(Debug)]
pub struct Signature {
    /// The method's name.
    pub name: NameId,
    /// The method's own generic parameters, in declaration order.
    pub generics: Vec<GenericParam>,
    /// The method's `where` clause predicates, in declaration order.
    pub where_preds: Vec<WherePredicate>,
    /// All parameters, receiver included, in declaration order.
    pub inputs: Vec<FnInput>,
    /// The declared return type, `None` for `()` left implicit.
    pub output: Option<Ty>,
    /// Where the signature stands in the source.
    pub span: SpanId,
}

/// One item of the interface body.
#[derive(Debug)]
pub enum TraitItem {
    /// A method, with or without a provided default body.
    Method { sig: Signature, has_default: bool },
    /// Anything else (an associated type, a const, ...), kept only for the
    /// diagnostic it provokes.
    Other { span: SpanId },
}

/// A whole interface definition as the parser hands it over.
#[derive(Debug)]
pub struct InterfaceDef {
    /// The interface's name.
    pub name: NameId,
    /// The interface's own generic parameters.
    pub generics: Vec<GenericParam>,
    /// Whether the interface carries a `where` clause.
    pub has_where_clause: bool,
    /// The number of declared supertraits.
    pub supertrait_count: usize,
    /// Whether the interface is declared unsafe.
    pub is_unsafe: bool,
    /// The interface body, in declaration order.
    pub items: Vec<TraitItem>,
    /// Where the definition stands in the source.
    pub span: SpanId,
}

} // verus!
