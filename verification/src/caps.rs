//! The capability variant registry.
//!
//! Each interface exists in four erased-reference variants: plain, extended
//! with the thread-shareable marker, extended with the thread-transferable
//! marker, or both. All four share one runtime representation; removing a
//! marker is a relabeling, never a data transformation, and is the only
//! direction of conversion the registry offers.

use vstd::prelude::*;

verus! {

/// Which of the two cross-cutting markers an erased-reference type carries.
#[derive(Clone, Copy, Debug, PartialEq, Eq, Structural)]
pub enum CapabilityVariant {
    /// Neither marker.
    Plain,
    /// The thread-transferable marker only.
    Transferable,
    /// The thread-shareable marker only.
    Shareable,
    /// Both markers.
    TransferableShareable,
}

/// The variant left after relabeling the thread-transferable marker away.
pub open spec fn remove_transferable(v: CapabilityVariant) -> CapabilityVariant {
    match v {
        CapabilityVariant::Plain => CapabilityVariant::Plain,
        CapabilityVariant::Transferable => CapabilityVariant::Plain,
        CapabilityVariant::Shareable => CapabilityVariant::Shareable,
        CapabilityVariant::TransferableShareable => CapabilityVariant::Shareable,
    }
}

/// The variant left after relabeling the thread-shareable marker away.
pub open spec fn remove_shareable(v: CapabilityVariant) -> CapabilityVariant {
    match v {
        CapabilityVariant::Plain => CapabilityVariant::Plain,
        CapabilityVariant::Transferable => CapabilityVariant::Transferable,
        CapabilityVariant::Shareable => CapabilityVariant::Plain,
        CapabilityVariant::TransferableShareable => CapabilityVariant::Transferable,
    }
}

/// The variant left after relabeling both markers away in one step.
pub open spec fn remove_both(v: CapabilityVariant) -> CapabilityVariant {
    CapabilityVariant::Plain
}

/// Stripping a marker is idempotent: relabeling it away a second time
/// changes nothing.
pub proof fn lemma_strip_idempotent(v: CapabilityVariant)
    ensures
        remove_transferable(remove_transferable(v)) == remove_transferable(v),
        remove_shareable(remove_shareable(v)) == remove_shareable(v),
{
}

/// Stripping is order-independent: transferable-then-shareable equals
/// shareable-then-transferable equals stripping both in one step.
pub proof fn lemma_strip_order_independent(v: CapabilityVariant)
    ensures
        remove_shareable(remove_transferable(v)) == remove_transferable(remove_shareable(v)),
        remove_shareable(remove_transferable(v)) == remove_both(v),
{
}

/// One relabeling declaration the registry emits: for an erased reference of
/// `variant`, the representation-identical plain variant and the variants
/// reached by removing each marker.
#[derive(Clone, Copy, Debug, PartialEq, Eq, Structural)]
pub struct CapabilityImpl {
    /// The variant the declaration is for.
    pub variant: CapabilityVariant,
    /// The variant with no markers; the metadata representation is shared
    /// with it.
    pub plain: CapabilityVariant,
    /// The target of removing the thread-transferable marker.
    pub remove_send: CapabilityVariant,
    /// The target of removing the thread-shareable marker.
    pub remove_sync: CapabilityVariant,
}

/// The relabeling declaration for one variant.
pub open spec fn capability_impl_for(v: CapabilityVariant) -> CapabilityImpl {
    CapabilityImpl {
        variant: v,
        plain: CapabilityVariant::Plain,
        remove_send: remove_transferable(v),
        remove_sync: remove_shareable(v),
    }
}

/// The four declarations the registry emits for every interface, in a fixed
/// order: plain first, then transferable, shareable, and both.
pub open spec fn capability_impls() -> Seq<CapabilityImpl> {
    seq![
        capability_impl_for(CapabilityVariant::Plain),
        capability_impl_for(CapabilityVariant::Transferable),
        capability_impl_for(CapabilityVariant::Shareable),
        capability_impl_for(CapabilityVariant::TransferableShareable),
    ]
}

/// Emits the four relabeling declarations for one interface.
pub fn build_capability_impls() -> (r: Vec<CapabilityImpl>)
    ensures
        r@ == capability_impls(),
{
    let mut v: Vec<CapabilityImpl> = Vec::new();
    v.push(
        CapabilityImpl {
            variant: CapabilityVariant::Plain,
            plain: CapabilityVariant::Plain,
            remove_send: CapabilityVariant::Plain,
            remove_sync: CapabilityVariant::Plain,
        },
    );
    v.push(
        CapabilityImpl {
            variant: CapabilityVariant::Transferable,
            plain: CapabilityVariant::Plain,
            remove_send: CapabilityVariant::Plain,
            remove_sync: CapabilityVariant::Transferable,
        },
    );
    v.push(
        CapabilityImpl {
            variant: CapabilityVariant::Shareable,
            plain: CapabilityVariant::Plain,
            remove_send: CapabilityVariant::Shareable,
            remove_sync: CapabilityVariant::Plain,
        },
    );
    v.push(
        CapabilityImpl {
            variant: CapabilityVariant::TransferableShareable,
            plain: CapabilityVariant::Plain,
            remove_send: CapabilityVariant::Shareable,
            remove_sync: CapabilityVariant::Transferable,
        },
    );
    proof {
        assert(v@ =~= capability_impls());
    }
    v
}

} // verus!
