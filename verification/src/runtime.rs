//! The erased-reference runtime.
//!
//! A wide reference is a data pointer paired with a metadata word and
//! nothing else: no size, no alignment, no destructor. Pointers are modeled
//! as plain addresses; what an address designates, and what a function
//! pointer does when invoked, is the dispatch machine's business. The wide
//! reference never owns its pointee — drop responsibility stays with the
//! typed owner — and carries a capability label mirroring the marker bounds
//! of its erased type.

use vstd::prelude::*;

use crate::caps::{remove_both, remove_shareable, remove_transferable, CapabilityVariant};

verus! {

/// The address of an erased object.
pub type ErasedAddr = usize;

/// A function pointer, as an address into the machine's code.
pub type FnAddr = usize;

/// The address of a statically allocated dispatch table.
pub type TableAddr = usize;

/// The metadata word of a wide reference: the one-field table record by
/// value for single-method interfaces, a unit marker for method-less ones,
/// or a pointer to the statically allocated table record.
#[derive(Clone, Copy, Debug, PartialEq, Eq, Structural)]
pub enum Meta {
    /// Inline layout, no methods: the empty record, carrying nothing.
    UnitVtable,
    /// Inline layout, one method: the record collapses to that method's
    /// function pointer, stored directly.
    InlineFn(FnAddr),
    /// Struct layout: a pointer to the table record.
    TableRef(TableAddr),
}

/// The inner pointer shared by `Ref` and `RefMut`: the erased data pointer,
/// the metadata, and the capability label of the erased type.
#[derive(Clone, Copy, Debug, PartialEq, Eq, Structural)]
pub struct DynPtr {
    /// The erased object's address.
    pub data: ErasedAddr,
    /// The metadata needed to call interface methods.
    pub meta: Meta,
    /// Which marker capabilities the erased type carries.
    pub caps: CapabilityVariant,
}

/// The inner pointer after relabeling the thread-transferable marker away:
/// data and metadata are untouched.
pub open spec fn strip_send(p: DynPtr) -> DynPtr {
    DynPtr { data: p.data, meta: p.meta, caps: remove_transferable(p.caps) }
}

/// The inner pointer after relabeling the thread-shareable marker away:
/// data and metadata are untouched.
pub open spec fn strip_sync(p: DynPtr) -> DynPtr {
    DynPtr { data: p.data, meta: p.meta, caps: remove_shareable(p.caps) }
}

impl DynPtr {
    /// Assembles an inner pointer from an erased address and the metadata
    /// built for the pointee's concrete type.
    pub fn new(data: ErasedAddr, meta: Meta, caps: CapabilityVariant) -> (r: DynPtr)
        ensures
            r == (DynPtr { data, meta, caps }),
    {
        DynPtr { data, meta, caps }
    }

    /// Removes the thread-transferable marker from the label, touching
    /// neither the data pointer nor the metadata.
    pub fn remove_send(self) -> (r: DynPtr)
        ensures
            r == strip_send(self),
    {
        DynPtr { data: self.data, meta: self.meta, caps: remove_transferable_label(self.caps) }
    }

    /// Removes the thread-shareable marker from the label, touching neither
    /// the data pointer nor the metadata.
    pub fn remove_sync(self) -> (r: DynPtr)
        ensures
            r == strip_sync(self),
    {
        DynPtr { data: self.data, meta: self.meta, caps: remove_shareable_label(self.caps) }
    }
}

/// Relabels the thread-transferable marker away.
pub fn remove_transferable_label(v: CapabilityVariant) -> (r: CapabilityVariant)
    ensures
        r == remove_transferable(v),
{
    match v {
        CapabilityVariant::Plain => CapabilityVariant::Plain,
        CapabilityVariant::Transferable => CapabilityVariant::Plain,
        CapabilityVariant::Shareable => CapabilityVariant::Shareable,
        CapabilityVariant::TransferableShareable => CapabilityVariant::Shareable,
    }
}

/// Relabels the thread-shareable marker away.
pub fn remove_shareable_label(v: CapabilityVariant) -> (r: CapabilityVariant)
    ensures
        r == remove_shareable(v),
{
    match v {
        CapabilityVariant::Plain => CapabilityVariant::Plain,
        CapabilityVariant::Transferable => CapabilityVariant::Transferable,
        CapabilityVariant::Shareable => CapabilityVariant::Plain,
        CapabilityVariant::TransferableShareable => CapabilityVariant::Transferable,
    }
}

/// Capability stripping relabels only: the representation is preserved, each
/// strip is idempotent, and stripping both markers is order-independent and
/// equal to removing both in one step.
pub proof fn lemma_strip_relabels_only(p: DynPtr)
    ensures
        strip_send(p).data == p.data && strip_send(p).meta == p.meta,
        strip_sync(p).data == p.data && strip_sync(p).meta == p.meta,
        strip_send(strip_send(p)) == strip_send(p),
        strip_sync(strip_sync(p)) == strip_sync(p),
        strip_sync(strip_send(p)) == strip_send(strip_sync(p)),
        strip_sync(strip_send(p)).caps == remove_both(p.caps),
{
}

/// A shared wide reference to an erased object.
///
/// Freely duplicable: the underlying access is read-only as far as the
/// aliasing discipline is concerned.
#[derive(Clone, Copy, Debug, PartialEq, Eq, Structural)]
pub struct Ref {
    /// The data pointer, metadata and capability label.
    pub inner: DynPtr,
}

/// An exclusive wide reference to an erased object.
///
/// Not duplicable; it can instead be reborrowed into a shorter-lived shared
/// or exclusive view, or converted one-way into a shared reference.
#[derive(Debug, PartialEq, Eq, Structural)]
pub struct RefMut {
    /// The data pointer, metadata and capability label.
    pub inner: DynPtr,
}

impl Ref {
    /// Constructs a shared wide reference from a typed reference's address
    /// and the metadata built for its concrete type. The reference owns
    /// nothing and claims no size, alignment or destructor for the pointee.
    pub fn new(data: ErasedAddr, meta: Meta, caps: CapabilityVariant) -> (r: Ref)
        ensures
            r.inner == (DynPtr { data, meta, caps }),
    {
        Ref { inner: DynPtr::new(data, meta, caps) }
    }

    /// The double-indirection target through which forwarding methods are
    /// reached.
    pub fn target(&self) -> (t: DynTarget)
        ensures
            t.ptr == self.inner,
    {
        DynTarget::new_ref(&self.inner)
    }

    /// Removes the thread-transferable marker from the erased type's label.
    pub fn remove_send(self) -> (r: Ref)
        ensures
            r.inner == strip_send(self.inner),
    {
        Ref { inner: self.inner.remove_send() }
    }

    /// Removes the thread-shareable marker from the erased type's label.
    pub fn remove_sync(self) -> (r: Ref)
        ensures
            r.inner == strip_sync(self.inner),
    {
        Ref { inner: self.inner.remove_sync() }
    }
}

impl From<RefMut> for Ref {
    /// Converts an exclusive wide reference into a shared one: a one-way,
    /// representation-preserving operation consuming the exclusive
    /// reference.
    fn from(value: RefMut) -> (r: Ref) {
        Ref { inner: value.inner }
    }
}

impl vstd::std_specs::convert::FromSpecImpl<RefMut> for Ref {
    open spec fn obeys_from_spec() -> bool {
        true
    }

    open spec fn from_spec(value: RefMut) -> Ref {
        Ref { inner: value.inner }
    }
}

impl RefMut {
    /// Constructs an exclusive wide reference from a typed exclusive
    /// reference's address and the metadata built for its concrete type.
    pub fn new(data: ErasedAddr, meta: Meta, caps: CapabilityVariant) -> (r: RefMut)
        ensures
            r.inner == (DynPtr { data, meta, caps }),
    {
        RefMut { inner: DynPtr::new(data, meta, caps) }
    }

    /// Reborrows as a shared reference with a shorter scope; the exclusive
    /// reference becomes usable again once the view's scope ends.
    pub fn as_ref(&self) -> (r: Ref)
        ensures
            r.inner == self.inner,
    {
        Ref { inner: self.inner }
    }

    /// Reborrows as an exclusive reference with a shorter scope; the
    /// original is inaccessible until the view's scope ends, enforced by the
    /// host's aliasing discipline, not here.
    pub fn as_mut(&mut self) -> (r: RefMut)
        ensures
            *final(self) == *old(self),
            r.inner == old(self).inner,
    {
        RefMut { inner: self.inner }
    }

    /// Downcasts to the concrete object's address. Sound to use only if the
    /// reference was constructed from that concrete type — the caller
    /// asserts it; no runtime check exists.
    pub fn as_downcast_ptr(&mut self) -> (r: ErasedAddr)
        ensures
            *final(self) == *old(self),
            r == old(self).inner.data,
    {
        self.inner.data
    }

    /// The metadata word of this wide reference.
    pub fn metadata(&self) -> (m: Meta)
        ensures
            m == self.inner.meta,
    {
        self.inner.meta
    }

    /// The double-indirection target through which forwarding methods are
    /// reached, for shared access.
    pub fn target(&self) -> (t: DynTarget)
        ensures
            t.ptr == self.inner,
    {
        DynTarget::new_ref(&self.inner)
    }

    /// The double-indirection target through which forwarding methods are
    /// reached, for exclusive access.
    pub fn target_mut(&mut self) -> (t: DynTarget)
        ensures
            *final(self) == *old(self),
            t.ptr == old(self).inner,
    {
        DynTarget::new_mut(&mut self.inner)
    }

    /// Removes the thread-transferable marker from the erased type's label.
    pub fn remove_send(self) -> (r: RefMut)
        ensures
            r.inner == strip_send(self.inner),
    {
        RefMut { inner: self.inner.remove_send() }
    }

    /// Removes the thread-shareable marker from the erased type's label.
    pub fn remove_sync(self) -> (r: RefMut)
        ensures
            r.inner == strip_sync(self.inner),
    {
        RefMut { inner: self.inner.remove_sync() }
    }
}

/// A type-erased pointer standing for `&self` or `&mut self` in a table
/// entry's bare signature.
#[derive(Clone, Copy, Debug, PartialEq, Eq, Structural)]
pub struct SelfPtr {
    /// The erased receiver's address.
    pub addr: ErasedAddr,
    /// Whether this pointer grants exclusive access.
    pub exclusive: bool,
}

impl SelfPtr {
    /// Wraps a shared erased receiver.
    pub fn new_ref(self_: ErasedAddr) -> (r: SelfPtr)
        ensures
            r == (SelfPtr { addr: self_, exclusive: false }),
    {
        SelfPtr { addr: self_, exclusive: false }
    }

    /// Wraps an exclusive erased receiver.
    pub fn new_mut(self_: ErasedAddr) -> (r: SelfPtr)
        ensures
            r == (SelfPtr { addr: self_, exclusive: true }),
    {
        SelfPtr { addr: self_, exclusive: true }
    }

    /// Unerases a shared receiver to its concrete address. Sound to use only
    /// if the pointer was constructed from that concrete type; no runtime
    /// check exists.
    pub fn downcast(self) -> (r: ErasedAddr)
        requires
            !self.exclusive,
        ensures
            r == self.addr,
    {
        self.addr
    }

    /// Re-erases a shared receiver for an interface the concrete type also
    /// implements: the address is untouched.
    pub fn upcast(self) -> (r: SelfPtr)
        requires
            !self.exclusive,
        ensures
            r == self,
    {
        SelfPtr { addr: self.addr, exclusive: false }
    }

    /// Unerases an exclusive receiver to its concrete address. Sound to use
    /// only if the pointer was constructed from that concrete type; no
    /// runtime check exists.
    pub fn downcast_mut(self) -> (r: ErasedAddr)
        requires
            self.exclusive,
        ensures
            r == self.addr,
    {
        self.addr
    }
}

/// The double-indirection target of a wide reference.
///
/// Forwarding methods are reached through a reference to the erased
/// reference rather than a directly-sized reference to the erased object,
/// whose size and alignment are unknown.
#[derive(Clone, Copy, Debug, PartialEq, Eq, Structural)]
pub struct DynTarget {
    /// The wide reference's inner pointer.
    pub ptr: DynPtr,
}

impl DynTarget {
    /// Views a shared inner pointer as a dispatch target.
    pub fn new_ref(ptr: &DynPtr) -> (t: DynTarget)
        ensures
            t.ptr == *ptr,
    {
        DynTarget { ptr: *ptr }
    }

    /// Views an exclusive inner pointer as a dispatch target.
    pub fn new_mut(ptr: &mut DynPtr) -> (t: DynTarget)
        ensures
            *final(ptr) == *old(ptr),
            t.ptr == *old(ptr),
    {
        DynTarget { ptr: *ptr }
    }

    /// The erased self-pointer for a `&self` forwarding call.
    pub fn self_ref(self_: &DynTarget) -> (r: SelfPtr)
        ensures
            r == (SelfPtr { addr: self_.ptr.data, exclusive: false }),
    {
        SelfPtr::new_ref(self_.ptr.data)
    }

    /// The erased self-pointer for a `&mut self` forwarding call.
    pub fn self_mut(self_: &mut DynTarget) -> (r: SelfPtr)
        ensures
            *final(self_) == *old(self_),
            r == (SelfPtr { addr: old(self_).ptr.data, exclusive: true }),
    {
        SelfPtr::new_mut(self_.ptr.data)
    }

    /// The metadata word of this wide reference.
    pub fn meta(self_: &DynTarget) -> (m: Meta)
        ensures
            m == self_.ptr.meta,
    {
        self_.ptr.meta
    }
}

/// The static-table marker type for interfaces whose dispatch collapses to
/// an inline function pointer: nothing is allocated for them.
#[derive(Clone, Copy, Debug, PartialEq, Eq, Structural)]
pub struct InlineVTable;

/// The size and alignment of a type, as the verified reinterpretation
/// compares them.
#[derive(Clone, Copy, Debug, PartialEq, Eq, Structural)]
pub struct TyLayout {
    /// The type's size in bytes.
    pub size: usize,
    /// The type's alignment in bytes.
    pub align: usize,
}

/// Whether two types may be reinterpreted into one another: their sizes and
/// alignments agree.
pub fn layouts_agree(src: &TyLayout, dst: &TyLayout) -> (r: bool)
    ensures
        r == (*src == *dst),
{
    src.size == dst.size && src.align == dst.align
}

/// Reinterprets a value's bit pattern from a source type to a destination
/// type of identical size and alignment: the bits are returned unchanged.
///
/// The layout equality is the internal-consistency check of the erasure
/// rule: a caller that cannot establish it statically must test
/// `layouts_agree` first and treat disagreement as a fatal internal error,
/// never as a recoverable one.
pub fn runtime_layout_verified_transmute(src: TyLayout, dst: TyLayout, bits: u64) -> (r: u64)
    requires
        src == dst,
    ensures
        r == bits,
{
    bits
}

} // verus!
