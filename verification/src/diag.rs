//! Compile-time rejection diagnostics.
//!
//! Every construct outside the supported subset is reported as an
//! `UnsupportedConstruct` naming the construct's kind and its source
//! location; the pipeline emits no declarations for an interface it has
//! rejected.

use vstd::prelude::*;

use crate::ast::SpanId;

verus! {

/// The kinds of construct the compilation pipeline rejects.
#[derive(Clone, Copy, Debug, PartialEq, Eq, Structural)]
pub enum ConstructKind {
    /// A `where` clause on the interface itself.
    InterfaceWhereClause,
    /// Generic parameters on the interface itself.
    InterfaceGenerics,
    /// Supertraits on the interface.
    Supertraits,
    /// An `unsafe` marker on the interface.
    UnsafeInterface,
    /// An interface item that is not a method.
    NonFunctionItem,
    /// A non-lifetime generic parameter on a method.
    MethodTypeGenerics,
    /// A non-lifetime `where` predicate on a method.
    MethodWhereClause,
    /// A receiver that is not a shared or exclusive reference to `Self`.
    NonReferenceReceiver,
    /// More than one receiver parameter on a method.
    MultipleReceivers,
    /// A method with no receiver parameter at all.
    MissingReceiver,
}

/// A single rejection diagnostic: what was found, and where.
#[derive(Clone, Copy, Debug, PartialEq, Eq, Structural)]
pub struct UnsupportedConstruct {
    /// The rejected construct.
    pub kind: ConstructKind,
    /// Where it stands in the source.
    pub location: SpanId,
}

impl UnsupportedConstruct {
    /// Builds the diagnostic for a rejected construct.
    pub fn new(kind: ConstructKind, location: SpanId) -> (r: Self)
        ensures
            r.kind == kind,
            r.location == location,
    {
        UnsupportedConstruct { kind, location }
    }
}

} // verus!
