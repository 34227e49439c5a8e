//! The signature analyzer.
//!
//! One method signature at a time, the analyzer validates the supported
//! subset — lifetime-only method generics, lifetime-only `where` predicates,
//! exactly one receiver shaped as a shared or exclusive reference to `Self` —
//! and normalizes the accepted signature into a `MethodDescriptor` whose
//! argument and return types carry their erased forms.

use vstd::prelude::*;

use crate::ast::{
    FnInput, GenericParam, InterfaceDef, NameId, Signature, SpanId, TraitItem, Ty, WherePredicate,
};
use crate::diag::{ConstructKind, UnsupportedConstruct};
use crate::erase::{erase_ty, to_bare_arg_type, ty_needs_reinterp};

verus! {

/// Which kind of access a method's receiver demands.
#[derive(Clone, Copy, Debug, PartialEq, Eq, Structural)]
pub enum ReceiverKind {
    /// `&self`: any number of concurrent callers may hold the reference.
    SharedAccess,
    /// `&mut self`: exactly one active accessor.
    ExclusiveAccess,
}

impl ReceiverKind {
    /// The access kind a receiver's mutability marker selects.
    pub fn from_mutability(is_mut: bool) -> (r: ReceiverKind)
        ensures
            r == (if is_mut {
                ReceiverKind::ExclusiveAccess
            } else {
                ReceiverKind::SharedAccess
            }),
    {
        if is_mut {
            ReceiverKind::ExclusiveAccess
        } else {
            ReceiverKind::SharedAccess
        }
    }
}

/// One non-receiver parameter (or the return slot) of an accepted method:
/// the declared type, its erased form, and whether a verified
/// reinterpretation is needed to move a value between the two.
#[derive(Debug, PartialEq)]
pub struct ArgumentDescriptor {
    /// The type as declared.
    pub orig: Ty,
    /// The erased type, every borrow-scope annotation rewritten to the
    /// canonical marker.
    pub bare: Ty,
    /// Whether `bare` differs from `orig`.
    pub needs_reinterp: bool,
}

/// One parameter of a table entry's bare function-pointer type.
#[derive(Debug, PartialEq)]
pub enum BareParam {
    /// The erased self-pointer standing in for the receiver, with its access
    /// kind.
    ErasedSelf { access: ReceiverKind },
    /// An ordinary parameter at its erased type.
    Value { ty: Ty },
}

/// An accepted method, normalized.
#[derive(Debug)]
pub struct MethodDescriptor {
    /// The method's name.
    pub name: NameId,
    /// The access kind of the receiver.
    pub receiver: ReceiverKind,
    /// The receiver's position among the declared parameters.
    pub receiver_pos: usize,
    /// The non-receiver parameters, in declaration order.
    pub args: Vec<ArgumentDescriptor>,
    /// All parameters at their erased types, in declaration order, the
    /// receiver widened to the erased self-pointer: the table entry's bare
    /// function-pointer parameter list.
    pub bare_params: Vec<BareParam>,
    /// The return slot, absent for methods returning unit implicitly.
    pub ret: Option<ArgumentDescriptor>,
    /// Whether the interface provides a default body for this method.
    pub has_default: bool,
    /// Where the signature stands in the source.
    pub span: SpanId,
}

/// All method generic parameters are lifetimes.
pub open spec fn generic_params_ok(ps: Seq<GenericParam>) -> bool {
    forall|i: int| 0 <= i < ps.len() ==> #[trigger] ps[i] is Lifetime
}

/// All method `where` predicates are lifetime bounds.
pub open spec fn where_preds_ok(ws: Seq<WherePredicate>) -> bool {
    forall|i: int| 0 <= i < ws.len() ==> #[trigger] ws[i] is LifetimeBound
}

/// The receiver must be a shared or exclusive reference to `Self`.
pub open spec fn receiver_shape_ok(t: Ty) -> bool {
    t matches Ty::Reference { lt: _, is_mut: _, pointee } && *pointee is SelfTy
}

/// The access kind a well-shaped receiver demands.
pub open spec fn receiver_kind_of(t: Ty) -> ReceiverKind
    recommends
        receiver_shape_ok(t),
{
    match t {
        Ty::Reference { lt: _, is_mut, pointee: _ } => if is_mut {
            ReceiverKind::ExclusiveAccess
        } else {
            ReceiverKind::SharedAccess
        },
        _ => ReceiverKind::SharedAccess,
    }
}

/// What scanning the parameter list decides.
pub enum ReceiverOutcome {
    /// Exactly one well-shaped receiver was found.
    Accepted { recv: ReceiverKind, pos: int },
    /// The parameter list is outside the supported subset.
    Rejected { bad: ConstructKind },
}

/// The receiver found so far while scanning, with its position.
pub open spec fn seen_of(recv: Option<ReceiverKind>, pos: int) -> Option<(ReceiverKind, int)> {
    match recv {
        None => None,
        Some(k) => Some((k, pos)),
    }
}

/// Scans the parameter list from position `i` on, in declaration order,
/// carrying the receiver already `seen`: the first ill-shaped receiver or a
/// second receiver rejects the method, and a method without any receiver is
/// rejected once the list is exhausted.
pub open spec fn scan_inputs(
    inputs: Seq<FnInput>,
    i: int,
    seen: Option<(ReceiverKind, int)>,
) -> ReceiverOutcome
    decreases inputs.len() - i,
{
    if i < 0 || i >= inputs.len() {
        match seen {
            None => ReceiverOutcome::Rejected { bad: ConstructKind::MissingReceiver },
            Some((k, p)) => ReceiverOutcome::Accepted { recv: k, pos: p },
        }
    } else {
        match inputs[i] {
            FnInput::Typed { ty: _ } => scan_inputs(inputs, i + 1, seen),
            FnInput::Receiver { ty } => if !receiver_shape_ok(ty) {
                ReceiverOutcome::Rejected { bad: ConstructKind::NonReferenceReceiver }
            } else if seen is Some {
                ReceiverOutcome::Rejected { bad: ConstructKind::MultipleReceivers }
            } else {
                scan_inputs(inputs, i + 1, Some((receiver_kind_of(ty), i)))
            },
        }
    }
}

/// Whether the analyzer accepts the signature.
pub open spec fn sig_accepted(s: Signature) -> bool {
    &&& generic_params_ok(s.generics@)
    &&& where_preds_ok(s.where_preds@)
    &&& scan_inputs(s.inputs@, 0, None) is Accepted
}

/// The construct a rejected signature is reported for, following the order
/// the analyzer checks in: generics, then the `where` clause, then the
/// parameters in declaration order.
pub open spec fn sig_reject_kind(s: Signature) -> ConstructKind {
    if !generic_params_ok(s.generics@) {
        ConstructKind::MethodTypeGenerics
    } else if !where_preds_ok(s.where_preds@) {
        ConstructKind::MethodWhereClause
    } else {
        scan_inputs(s.inputs@, 0, None)->Rejected_bad
    }
}

/// The declared types of the non-receiver parameters, in declaration order.
pub open spec fn typed_tys(inputs: Seq<FnInput>) -> Seq<Ty>
    decreases inputs.len(),
{
    if inputs.len() == 0 {
        Seq::empty()
    } else {
        let front = typed_tys(inputs.drop_last());
        match inputs.last() {
            FnInput::Typed { ty } => front.push(ty),
            FnInput::Receiver { ty: _ } => front,
        }
    }
}

/// The bare function-pointer parameter list of a method with the given
/// parameters: each one at its erased type, the receiver widened to the
/// erased self-pointer of its access kind.
pub open spec fn bare_params_of(inputs: Seq<FnInput>) -> Seq<BareParam>
    decreases inputs.len(),
{
    if inputs.len() == 0 {
        Seq::empty()
    } else {
        let front = bare_params_of(inputs.drop_last());
        match inputs.last() {
            FnInput::Receiver { ty } => front.push(
                BareParam::ErasedSelf { access: receiver_kind_of(ty) },
            ),
            FnInput::Typed { ty } => front.push(BareParam::Value { ty: erase_ty(ty) }),
        }
    }
}

/// The descriptor a declared type normalizes to.
pub open spec fn arg_desc_of(t: Ty) -> ArgumentDescriptor {
    ArgumentDescriptor { orig: t, bare: erase_ty(t), needs_reinterp: ty_needs_reinterp(t) }
}

/// The descriptors of a list of declared types.
pub open spec fn arg_descs_of(ts: Seq<Ty>) -> Seq<ArgumentDescriptor> {
    ts.map_values(|t: Ty| arg_desc_of(t))
}

/// `d` is the normalized form of the accepted signature `s`.
pub open spec fn describes_method(d: MethodDescriptor, s: Signature) -> bool {
    &&& d.name == s.name
    &&& d.span == s.span
    &&& (scan_inputs(s.inputs@, 0, None) matches ReceiverOutcome::Accepted { recv, pos }
        && d.receiver == recv && d.receiver_pos as int == pos)
    &&& d.args@ == arg_descs_of(typed_tys(s.inputs@))
    &&& d.bare_params@ == bare_params_of(s.inputs@)
    &&& (match s.output {
        None => d.ret is None,
        Some(t) => d.ret == Some(arg_desc_of(t)),
    })
}

/// A whole interface, normalized: its name and its accepted methods in
/// declaration order. Declaration order is significant: it fixes the table
/// layout and, for the single-method case, the identity of the inline
/// function.
#[derive(Debug)]
pub struct InterfaceDescriptor {
    /// The interface's name.
    pub name: NameId,
    /// The methods, in declaration order.
    pub methods: Vec<MethodDescriptor>,
}

/// Every item of the interface body is a method.
pub open spec fn items_all_methods(items: Seq<TraitItem>) -> bool {
    forall|i: int| 0 <= i < items.len() ==> #[trigger] items[i] is Method
}

/// The signature of a method item.
pub open spec fn item_sig(x: TraitItem) -> Signature
    recommends
        x is Method,
{
    x->Method_sig
}

/// Every method of the interface body is within the supported subset.
pub open spec fn methods_accepted(items: Seq<TraitItem>) -> bool {
    forall|i: int| 0 <= i < items.len() ==> sig_accepted(item_sig(#[trigger] items[i]))
}

/// Whether the analyzer accepts the whole interface definition.
pub open spec fn interface_accepted(d: InterfaceDef) -> bool {
    &&& !d.has_where_clause
    &&& d.generics@.len() == 0
    &&& d.supertrait_count == 0
    &&& !d.is_unsafe
    &&& items_all_methods(d.items@)
    &&& methods_accepted(d.items@)
}

/// The location of the first non-method item at or after position `i`.
pub open spec fn first_non_fn(items: Seq<TraitItem>, i: int) -> Option<SpanId>
    decreases items.len() - i,
{
    if i < 0 || i >= items.len() {
        None
    } else {
        match items[i] {
            TraitItem::Method { sig: _, has_default: _ } => first_non_fn(items, i + 1),
            TraitItem::Other { span } => Some(span),
        }
    }
}

/// The diagnostic of the first rejected method at or after position `i`.
pub open spec fn first_sig_reject(items: Seq<TraitItem>, i: int) -> Option<UnsupportedConstruct>
    decreases items.len() - i,
{
    if i < 0 || i >= items.len() {
        None
    } else {
        match items[i] {
            TraitItem::Method { sig, has_default: _ } => if !sig_accepted(sig) {
                Some(UnsupportedConstruct { kind: sig_reject_kind(sig), location: sig.span })
            } else {
                first_sig_reject(items, i + 1)
            },
            TraitItem::Other { span: _ } => first_sig_reject(items, i + 1),
        }
    }
}

/// The diagnostic a rejected interface is reported with, following the order
/// the analyzer checks in: the interface's own `where` clause, generics,
/// supertraits and unsafety, then non-method items, then the methods in
/// declaration order.
pub open spec fn interface_reject(d: InterfaceDef) -> UnsupportedConstruct
    recommends
        !interface_accepted(d),
{
    if d.has_where_clause {
        UnsupportedConstruct { kind: ConstructKind::InterfaceWhereClause, location: d.span }
    } else if d.generics@.len() > 0 {
        UnsupportedConstruct { kind: ConstructKind::InterfaceGenerics, location: d.span }
    } else if d.supertrait_count > 0 {
        UnsupportedConstruct { kind: ConstructKind::Supertraits, location: d.span }
    } else if d.is_unsafe {
        UnsupportedConstruct { kind: ConstructKind::UnsafeInterface, location: d.span }
    } else if first_non_fn(d.items@, 0) is Some {
        UnsupportedConstruct {
            kind: ConstructKind::NonFunctionItem,
            location: first_non_fn(d.items@, 0)->Some_0,
        }
    } else if first_sig_reject(d.items@, 0) is Some {
        first_sig_reject(d.items@, 0)->Some_0
    } else {
        UnsupportedConstruct { kind: ConstructKind::NonFunctionItem, location: d.span }
    }
}

/// `desc` is the normalized form of the accepted interface `d`.
pub open spec fn describes_interface(desc: InterfaceDescriptor, d: InterfaceDef) -> bool {
    &&& desc.name == d.name
    &&& desc.methods@.len() == d.items@.len()
    &&& forall|i: int|
        0 <= i < d.items@.len() ==> {
            &&& describes_method(#[trigger] desc.methods@[i], item_sig(d.items@[i]))
            &&& desc.methods@[i].has_default == d.items@[i]->Method_has_default
        }
}

/// Classifies a receiver parameter's declared type: the access kind if it is
/// a reference to `Self`, nothing otherwise.
pub fn receiver_arg_kind(ty: &Ty) -> (r: Option<ReceiverKind>)
    ensures
        r is Some <==> receiver_shape_ok(*ty),
        r matches Some(k) ==> k == receiver_kind_of(*ty),
{
    match ty {
        Ty::Reference { lt: _, is_mut, pointee } => match &**pointee {
            Ty::SelfTy => Some(ReceiverKind::from_mutability(*is_mut)),
            _ => None,
        },
        _ => None,
    }
}

/// Validates one method signature and normalizes it into a descriptor.
///
/// Succeeds exactly on signatures within the supported subset; a rejected
/// signature yields the diagnostic for the first offending construct, at the
/// signature's own location.
pub fn analyze_method(sig: &Signature, has_default: bool) -> (r: Result<
    MethodDescriptor,
    UnsupportedConstruct,
>)
    ensures
        r is Ok <==> sig_accepted(*sig),
        r matches Ok(d) ==> describes_method(d, *sig) && d.has_default == has_default,
        r matches Err(e) ==> e.kind == sig_reject_kind(*sig) && e.location == sig.span,
{
    let mut i: usize = 0;
    while i < sig.generics.len()
        invariant
            i <= sig.generics.len(),
            forall|j: int| 0 <= j < i ==> #[trigger] sig.generics@[j] is Lifetime,
        decreases sig.generics.len() - i,
    {
        match sig.generics[i] {
            GenericParam::Lifetime(_) => {},
            _ => {
                assert(!generic_params_ok(sig.generics@));
                return Err(UnsupportedConstruct::new(ConstructKind::MethodTypeGenerics, sig.span));
            },
        }
        i = i + 1;
    }
    assert(generic_params_ok(sig.generics@));

    let mut i: usize = 0;
    while i < sig.where_preds.len()
        invariant
            i <= sig.where_preds.len(),
            generic_params_ok(sig.generics@),
            forall|j: int| 0 <= j < i ==> #[trigger] sig.where_preds@[j] is LifetimeBound,
        decreases sig.where_preds.len() - i,
    {
        match sig.where_preds[i] {
            WherePredicate::LifetimeBound(_) => {},
            _ => {
                assert(!where_preds_ok(sig.where_preds@));
                return Err(UnsupportedConstruct::new(ConstructKind::MethodWhereClause, sig.span));
            },
        }
        i = i + 1;
    }
    assert(where_preds_ok(sig.where_preds@));

    let mut recv: Option<ReceiverKind> = None;
    let mut recv_pos: usize = 0;
    let mut args: Vec<ArgumentDescriptor> = Vec::new();
    let mut bare_params: Vec<BareParam> = Vec::new();
    let mut i: usize = 0;
    while i < sig.inputs.len()
        invariant
            i <= sig.inputs.len(),
            generic_params_ok(sig.generics@),
            where_preds_ok(sig.where_preds@),
            scan_inputs(sig.inputs@, 0, None) == scan_inputs(
                sig.inputs@,
                i as int,
                seen_of(recv, recv_pos as int),
            ),
            recv is Some ==> recv_pos < i,
            args@ == arg_descs_of(typed_tys(sig.inputs@.take(i as int))),
            bare_params@ == bare_params_of(sig.inputs@.take(i as int)),
        decreases sig.inputs.len() - i,
    {
        let ghost prefix = sig.inputs@.take(i as int);
        match &sig.inputs[i] {
            FnInput::Typed { ty } => {
                let (bare, needs) = to_bare_arg_type(ty);
                bare_params.push(BareParam::Value { ty: bare.clone() });
                args.push(ArgumentDescriptor { orig: ty.clone(), bare, needs_reinterp: needs });
                proof {
                    let longer = sig.inputs@.take(i + 1);
                    assert(longer.drop_last() =~= prefix);
                    assert(longer.last() == sig.inputs@[i as int]);
                    assert(typed_tys(longer) == typed_tys(prefix).push(*ty));
                    assert(bare_params_of(longer) == bare_params_of(prefix).push(
                        BareParam::Value { ty: erase_ty(*ty) },
                    ));
                    assert(arg_descs_of(typed_tys(prefix).push(*ty)) =~= arg_descs_of(
                        typed_tys(prefix),
                    ).push(arg_desc_of(*ty)));
                }
            },
            FnInput::Receiver { ty } => {
                match receiver_arg_kind(ty) {
                    None => {
                        assert(scan_inputs(sig.inputs@, 0, None) matches
                            ReceiverOutcome::Rejected { bad }
                            && bad == ConstructKind::NonReferenceReceiver);
                        return Err(UnsupportedConstruct::new(
                            ConstructKind::NonReferenceReceiver,
                            sig.span,
                        ));
                    },
                    Some(k) => {
                        if recv.is_some() {
                            assert(scan_inputs(sig.inputs@, 0, None) matches
                                ReceiverOutcome::Rejected { bad }
                                && bad == ConstructKind::MultipleReceivers);
                            return Err(UnsupportedConstruct::new(
                                ConstructKind::MultipleReceivers,
                                sig.span,
                            ));
                        }
                        bare_params.push(BareParam::ErasedSelf { access: k });
                        recv = Some(k);
                        recv_pos = i;
                    },
                }
                proof {
                    let longer = sig.inputs@.take(i + 1);
                    assert(longer.drop_last() =~= prefix);
                    assert(longer.last() == sig.inputs@[i as int]);
                    assert(typed_tys(longer) == typed_tys(prefix));
                    assert(bare_params_of(longer) == bare_params_of(prefix).push(
                        BareParam::ErasedSelf { access: receiver_kind_of(*ty) },
                    ));
                }
            },
        }
        i = i + 1;
    }
    assert(sig.inputs@.take(sig.inputs@.len() as int) =~= sig.inputs@);

    match recv {
        None => {
            assert(scan_inputs(sig.inputs@, 0, None) matches ReceiverOutcome::Rejected { bad }
                && bad == ConstructKind::MissingReceiver);
            Err(UnsupportedConstruct::new(ConstructKind::MissingReceiver, sig.span))
        },
        Some(k) => {
            let ret: Option<ArgumentDescriptor> = match &sig.output {
                None => None,
                Some(t) => {
                    let (bare, needs) = to_bare_arg_type(t);
                    Some(ArgumentDescriptor { orig: t.clone(), bare, needs_reinterp: needs })
                },
            };
            Ok(MethodDescriptor {
                name: sig.name,
                receiver: k,
                receiver_pos: recv_pos,
                args,
                bare_params,
                ret,
                has_default,
                span: sig.span,
            })
        },
    }
}

/// Validates a whole interface definition and normalizes it into a
/// descriptor.
///
/// Succeeds exactly on interfaces within the supported subset — no generics,
/// no `where` clause, no supertraits, no unsafety marker, methods only, and
/// every method accepted by `analyze_method`. A rejected interface yields
/// the diagnostic for the first offending construct; analysis of the
/// interface stops there.
pub fn analyze_interface(def: &InterfaceDef) -> (r: Result<
    InterfaceDescriptor,
    UnsupportedConstruct,
>)
    ensures
        r is Ok <==> interface_accepted(*def),
        r matches Ok(desc) ==> describes_interface(desc, *def),
        r matches Err(e) ==> e == interface_reject(*def),
{
    if def.has_where_clause {
        return Err(UnsupportedConstruct::new(ConstructKind::InterfaceWhereClause, def.span));
    }
    if def.generics.len() > 0 {
        return Err(UnsupportedConstruct::new(ConstructKind::InterfaceGenerics, def.span));
    }
    if def.supertrait_count > 0 {
        return Err(UnsupportedConstruct::new(ConstructKind::Supertraits, def.span));
    }
    if def.is_unsafe {
        return Err(UnsupportedConstruct::new(ConstructKind::UnsafeInterface, def.span));
    }

    let mut i: usize = 0;
    while i < def.items.len()
        invariant
            i <= def.items.len(),
            !def.has_where_clause,
            def.generics@.len() == 0,
            def.supertrait_count == 0,
            !def.is_unsafe,
            forall|j: int| 0 <= j < i ==> #[trigger] def.items@[j] is Method,
            first_non_fn(def.items@, 0) == first_non_fn(def.items@, i as int),
        decreases def.items.len() - i,
    {
        match &def.items[i] {
            TraitItem::Method { sig: _, has_default: _ } => {},
            TraitItem::Other { span } => {
                assert(first_non_fn(def.items@, 0) == Some(*span));
                return Err(UnsupportedConstruct::new(ConstructKind::NonFunctionItem, *span));
            },
        }
        i = i + 1;
    }
    assert(items_all_methods(def.items@));
    assert(first_non_fn(def.items@, 0) is None);

    let mut methods: Vec<MethodDescriptor> = Vec::new();
    let mut i: usize = 0;
    while i < def.items.len()
        invariant
            i <= def.items.len(),
            !def.has_where_clause,
            def.generics@.len() == 0,
            def.supertrait_count == 0,
            !def.is_unsafe,
            items_all_methods(def.items@),
            first_non_fn(def.items@, 0) is None,
            first_sig_reject(def.items@, 0) == first_sig_reject(def.items@, i as int),
            methods@.len() == i,
            forall|j: int|
                0 <= j < i ==> {
                    &&& describes_method(#[trigger] methods@[j], item_sig(def.items@[j]))
                    &&& methods@[j].has_default == def.items@[j]->Method_has_default
                    &&& sig_accepted(item_sig(def.items@[j]))
                },
        decreases def.items.len() - i,
    {
        match &def.items[i] {
            TraitItem::Method { sig, has_default } => {
                match analyze_method(sig, *has_default) {
                    Ok(d) => {
                        methods.push(d);
                    },
                    Err(e) => {
                        assert(first_sig_reject(def.items@, 0) matches Some(f) && f == e);
                        return Err(e);
                    },
                }
            },
            TraitItem::Other { span: _ } => {
                proof {
                    assert(def.items@[i as int] is Method);
                }
                return Err(UnsupportedConstruct::new(ConstructKind::NonFunctionItem, def.span));
            },
        }
        i = i + 1;
    }
    assert forall|j: int| 0 <= j < def.items@.len() implies sig_accepted(
        item_sig(#[trigger] def.items@[j]),
    ) by {
        assert(describes_method(methods@[j], item_sig(def.items@[j])));
    }
    Ok(InterfaceDescriptor { name: def.name, methods })
}

} // verus!
