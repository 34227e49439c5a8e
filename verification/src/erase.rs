//! The erasure engine.
//!
//! Erasing a type rewrites every borrow-scope annotation in it to the one
//! canonical unbounded marker, so the result can stand in a bare
//! function-pointer type. A type whose erased form differs from the original
//! must be reinterpreted at call time through the layout-verified
//! reinterpretation of the runtime; the engine reports that need alongside
//! the erased type.

use vstd::prelude::*;

use crate::ast::{Lifetime, Ty, TyArgs};

verus! {

/// The erased form of `t`: every lifetime, elided ones included, becomes the
/// canonical `'static` marker; nothing else changes.
pub open spec fn erase_ty(t: Ty) -> Ty
    decreases t,
{
    match t {
        Ty::SelfTy => Ty::SelfTy,
        Ty::Path { name, args } => Ty::Path { name, args: erase_args(args) },
        Ty::Reference { lt: _, is_mut, pointee } => Ty::Reference {
            lt: Some(Lifetime::Static),
            is_mut,
            pointee: Box::new(erase_ty(*pointee)),
        },
    }
}

/// The erased form of a generic-argument list.
pub open spec fn erase_args(a: TyArgs) -> TyArgs
    decreases a,
{
    match a {
        TyArgs::Nil => TyArgs::Nil,
        TyArgs::ConsLt(_, rest) => TyArgs::ConsLt(Lifetime::Static, Box::new(erase_args(*rest))),
        TyArgs::ConsTy(ty, rest) => TyArgs::ConsTy(
            Box::new(erase_ty(*ty)),
            Box::new(erase_args(*rest)),
        ),
    }
}

/// Whether erasing `t` rewrites anything, i.e. whether a value of the
/// original type must be reinterpreted to be passed as the erased type.
/// False exactly for types free of borrow-scope annotations other than the
/// canonical marker.
pub open spec fn ty_needs_reinterp(t: Ty) -> bool
    decreases t,
{
    match t {
        Ty::SelfTy => false,
        Ty::Path { name: _, args } => args_need_reinterp(args),
        Ty::Reference { lt, is_mut: _, pointee } =>
            lt != Some(Lifetime::Static) || ty_needs_reinterp(*pointee),
    }
}

/// Whether erasing a generic-argument list rewrites anything.
pub open spec fn args_need_reinterp(a: TyArgs) -> bool
    decreases a,
{
    match a {
        TyArgs::Nil => false,
        TyArgs::ConsLt(lt, rest) => lt != Lifetime::Static || args_need_reinterp(*rest),
        TyArgs::ConsTy(ty, rest) => ty_needs_reinterp(*ty) || args_need_reinterp(*rest),
    }
}

/// Computes the erased (bare) form of a declared type, together with whether
/// the erasure changed it and a verified reinterpretation is therefore
/// needed at call time.
pub fn to_bare_arg_type(arg_type: &Ty) -> (r: (Ty, bool))
    ensures
        r.0 == erase_ty(*arg_type),
        r.1 == ty_needs_reinterp(*arg_type),
    decreases arg_type,
{
    match arg_type {
        Ty::SelfTy => (Ty::SelfTy, false),
        Ty::Path { name, args } => {
            let (bare_args, changed) = to_bare_args(args);
            (Ty::Path { name: *name, args: bare_args }, changed)
        }
        Ty::Reference { lt, is_mut, pointee } => {
            let (bare_pointee, inner_changed) = to_bare_arg_type(pointee);
            let lt_changed = !matches!(lt, Some(Lifetime::Static));
            (
                Ty::Reference {
                    lt: Some(Lifetime::Static),
                    is_mut: *is_mut,
                    pointee: Box::new(bare_pointee),
                },
                lt_changed || inner_changed,
            )
        }
    }
}

/// Computes the erased form of a generic-argument list, and whether the
/// erasure changed it.
pub fn to_bare_args(args: &TyArgs) -> (r: (TyArgs, bool))
    ensures
        r.0 == erase_args(*args),
        r.1 == args_need_reinterp(*args),
    decreases args,
{
    match args {
        TyArgs::Nil => (TyArgs::Nil, false),
        TyArgs::ConsLt(lt, rest) => {
            let (bare_rest, rest_changed) = to_bare_args(rest);
            let lt_changed = !matches!(lt, Lifetime::Static);
            (TyArgs::ConsLt(Lifetime::Static, Box::new(bare_rest)), lt_changed || rest_changed)
        }
        TyArgs::ConsTy(ty, rest) => {
            let (bare_ty, ty_changed) = to_bare_arg_type(ty);
            let (bare_rest, rest_changed) = to_bare_args(rest);
            (
                TyArgs::ConsTy(Box::new(bare_ty), Box::new(bare_rest)),
                ty_changed || rest_changed,
            )
        }
    }
}

/// Erasure is idempotent: an already-erased type is left unchanged, so the
/// canonical marker is naming-stable under repeated compilation.
pub proof fn lemma_erase_ty_idempotent(t: Ty)
    ensures
        erase_ty(erase_ty(t)) == erase_ty(t),
    decreases t,
{
    match t {
        Ty::SelfTy => {}
        Ty::Path { name: _, args } => {
            lemma_erase_args_idempotent(args);
        }
        Ty::Reference { lt: _, is_mut: _, pointee } => {
            lemma_erase_ty_idempotent(*pointee);
        }
    }
}

/// Erasure of a generic-argument list is idempotent.
pub proof fn lemma_erase_args_idempotent(a: TyArgs)
    ensures
        erase_args(erase_args(a)) == erase_args(a),
    decreases a,
{
    match a {
        TyArgs::Nil => {}
        TyArgs::ConsLt(_, rest) => {
            lemma_erase_args_idempotent(*rest);
        }
        TyArgs::ConsTy(ty, rest) => {
            lemma_erase_ty_idempotent(*ty);
            lemma_erase_args_idempotent(*rest);
        }
    }
}

/// The reinterpretation flag is exact: it is set if and only if erasure
/// actually changed the type.
pub proof fn lemma_needs_reinterp_iff_changed(t: Ty)
    ensures
        ty_needs_reinterp(t) <==> erase_ty(t) != t,
    decreases t,
{
    match t {
        Ty::SelfTy => {}
        Ty::Path { name: _, args } => {
            lemma_args_need_reinterp_iff_changed(args);
        }
        Ty::Reference { lt: _, is_mut: _, pointee } => {
            lemma_needs_reinterp_iff_changed(*pointee);
        }
    }
}

/// The reinterpretation flag of a generic-argument list is exact.
pub proof fn lemma_args_need_reinterp_iff_changed(a: TyArgs)
    ensures
        args_need_reinterp(a) <==> erase_args(a) != a,
    decreases a,
{
    match a {
        TyArgs::Nil => {}
        TyArgs::ConsLt(_, rest) => {
            lemma_args_need_reinterp_iff_changed(*rest);
        }
        TyArgs::ConsTy(ty, rest) => {
            lemma_needs_reinterp_iff_changed(*ty);
            lemma_args_need_reinterp_iff_changed(*rest);
        }
    }
}

/// An erased type never needs a further reinterpretation.
pub proof fn lemma_erased_needs_nothing(t: Ty)
    ensures
        !ty_needs_reinterp(erase_ty(t)),
{
    lemma_erase_ty_idempotent(t);
    lemma_needs_reinterp_iff_changed(erase_ty(t));
}

/// Two types agree in everything but their borrow-scope annotations: the
/// same paths, the same mutability, the same structure.
pub open spec fn same_shape(a: Ty, b: Ty) -> bool
    decreases a,
{
    match (a, b) {
        (Ty::SelfTy, Ty::SelfTy) => true,
        (Ty::Path { name: n1, args: a1 }, Ty::Path { name: n2, args: a2 }) => n1 == n2
            && args_same_shape(a1, a2),
        (
            Ty::Reference { lt: _, is_mut: m1, pointee: p1 },
            Ty::Reference { lt: _, is_mut: m2, pointee: p2 },
        ) => m1 == m2 && same_shape(*p1, *p2),
        _ => false,
    }
}

/// Two argument lists agree in everything but their borrow-scope
/// annotations.
pub open spec fn args_same_shape(a: TyArgs, b: TyArgs) -> bool
    decreases a,
{
    match (a, b) {
        (TyArgs::Nil, TyArgs::Nil) => true,
        (TyArgs::ConsLt(_, r1), TyArgs::ConsLt(_, r2)) => args_same_shape(*r1, *r2),
        (TyArgs::ConsTy(t1, r1), TyArgs::ConsTy(t2, r2)) => same_shape(*t1, *t2)
            && args_same_shape(*r1, *r2),
        _ => false,
    }
}

/// Erasure rewrites borrow-scope annotations and nothing else: the erased
/// type keeps the original's shape, which is why the two stay
/// representation-identical and the runtime's layout check is expected to
/// always pass.
pub proof fn lemma_erase_preserves_shape(t: Ty)
    ensures
        same_shape(t, erase_ty(t)),
    decreases t,
{
    match t {
        Ty::SelfTy => {}
        Ty::Path { name: _, args } => {
            lemma_erase_args_preserve_shape(args);
        }
        Ty::Reference { lt: _, is_mut: _, pointee } => {
            lemma_erase_preserves_shape(*pointee);
        }
    }
}

/// Erasing a generic-argument list keeps its shape.
pub proof fn lemma_erase_args_preserve_shape(a: TyArgs)
    ensures
        args_same_shape(a, erase_args(a)),
    decreases a,
{
    match a {
        TyArgs::Nil => {}
        TyArgs::ConsLt(_, rest) => {
            lemma_erase_args_preserve_shape(*rest);
        }
        TyArgs::ConsTy(ty, rest) => {
            lemma_erase_preserves_shape(*ty);
            lemma_erase_args_preserve_shape(*rest);
        }
    }
}

} // verus!
