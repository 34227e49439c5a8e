//! Tests of the erased-reference runtime: wide references, capability
//! stripping, the erased self-pointer, the dispatch target, and the
//! layout-verified reinterpretation.

use tinydyn::caps::CapabilityVariant;
use tinydyn::runtime::{
    layouts_agree, runtime_layout_verified_transmute, DynPtr, DynTarget, InlineVTable, Meta, Ref,
    RefMut, SelfPtr, TyLayout,
};

#[test]
fn capability_stripping_is_idempotent_and_order_independent() {
    let r = Ref::new(3, Meta::InlineFn(0), CapabilityVariant::TransferableShareable);

    let send_then_sync = r.remove_send().remove_sync();
    let sync_then_send = r.remove_sync().remove_send();
    assert_eq!(send_then_sync, sync_then_send);
    assert_eq!(send_then_sync.inner.caps, CapabilityVariant::Plain);

    // Stripping is a relabeling: data and metadata are untouched.
    assert_eq!(send_then_sync.inner.data, r.inner.data);
    assert_eq!(send_then_sync.inner.meta, r.inner.meta);

    // Stripping twice equals stripping once.
    assert_eq!(r.remove_send().remove_send(), r.remove_send());
    assert_eq!(r.remove_sync().remove_sync(), r.remove_sync());
    assert_eq!(r.remove_send().inner.caps, CapabilityVariant::Shareable);
    assert_eq!(r.remove_sync().inner.caps, CapabilityVariant::Transferable);
}

#[test]
fn exclusive_reference_strips_and_converts() {
    let z = RefMut::new(9, Meta::TableRef(2), CapabilityVariant::Transferable);
    let z = z.remove_send();
    assert_eq!(z.inner.caps, CapabilityVariant::Plain);
    assert_eq!(z.inner.data, 9);
    assert_eq!(z.inner.meta, Meta::TableRef(2));
    let z = z.remove_sync();
    assert_eq!(z.inner.caps, CapabilityVariant::Plain);

    // One-way conversion into a shared reference keeps the representation.
    let shared: Ref = Ref::from(z);
    assert_eq!(shared.inner.data, 9);
    assert_eq!(shared.inner.meta, Meta::TableRef(2));
}

#[test]
fn exclusive_reference_reborrows() {
    let mut z = RefMut::new(4, Meta::InlineFn(1), CapabilityVariant::Plain);
    let shared = z.as_ref();
    assert_eq!(shared.inner, z.inner);
    let view = z.as_mut();
    assert_eq!(view.inner, z.inner);
    assert_eq!(z.as_downcast_ptr(), 4);
    assert_eq!(z.metadata(), Meta::InlineFn(1));
}

#[test]
fn shared_reference_copies_freely() {
    let r = Ref::new(5, Meta::UnitVtable, CapabilityVariant::Shareable);
    let r2 = r;
    let r3 = r;
    assert_eq!(r2, r3);
    assert_eq!(r2.inner, DynPtr::new(5, Meta::UnitVtable, CapabilityVariant::Shareable));
}

#[test]
fn self_pointer_round_trips() {
    let p = SelfPtr::new_ref(11);
    assert!(!p.exclusive);
    assert_eq!(p.upcast(), p);
    assert_eq!(p.downcast(), 11);

    let q = SelfPtr::new_mut(12);
    assert!(q.exclusive);
    assert_eq!(q.downcast_mut(), 12);
}

#[test]
fn dispatch_target_exposes_pointer_and_metadata() {
    let r = Ref::new(6, Meta::InlineFn(3), CapabilityVariant::Plain);
    let t = r.target();
    assert_eq!(DynTarget::meta(&t), Meta::InlineFn(3));
    assert_eq!(DynTarget::self_ref(&t), SelfPtr::new_ref(6));

    let mut z = RefMut::new(7, Meta::TableRef(0), CapabilityVariant::Plain);
    let mut t = z.target_mut();
    assert_eq!(DynTarget::meta(&t), Meta::TableRef(0));
    assert_eq!(DynTarget::self_mut(&mut t), SelfPtr::new_mut(7));

    let _marker = InlineVTable;
}

#[test]
fn layout_verified_reinterpretation_is_identity() {
    let word = TyLayout { size: 8, align: 8 };
    let also_word = TyLayout { size: 8, align: 8 };
    let byte = TyLayout { size: 1, align: 1 };
    assert!(layouts_agree(&word, &also_word));
    assert!(!layouts_agree(&word, &byte));
    assert_eq!(runtime_layout_verified_transmute(word, also_word, 0xDEAD), 0xDEAD);
}
