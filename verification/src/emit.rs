//! The table builder and dispatch generator.
//!
//! From an accepted interface descriptor this derives the whole plan of
//! declarations to emit: the generated names, the table record type (one
//! bare function-pointer field per method, in declaration order), the
//! per-method forwarding glue, the metadata representation the layout
//! selector decided, and the four capability relabeling declarations. How
//! the plan is printed as tokens is the backend's business, not specified
//! here.

use vstd::prelude::*;

use crate::analyze::{
    describes_interface, interface_accepted, interface_reject, analyze_interface,
    ArgumentDescriptor, InterfaceDescriptor, MethodDescriptor, ReceiverKind,
};
use crate::ast::{InterfaceDef, NameId};
use crate::caps::{build_capability_impls, capability_impls, CapabilityImpl};
use crate::diag::UnsupportedConstruct;
use crate::layout::{layout_for, select_layout, TableLayout};

verus! {

/// A generated identifier or path, derived from the interface's name so that
/// the emitted declarations are naming-stable.
#[derive(Clone, Copy, Debug, PartialEq, Eq, Structural)]
pub enum GenName {
    /// The runtime library's own path.
    RuntimeCrate,
    /// The runtime's private support module.
    PrivateModule,
    /// The interface's own name.
    TraitName(NameId),
    /// The abstract interface type the wide references are indexed by.
    TraitObject(NameId),
    /// The table record type derived for the interface.
    Vtable(NameId),
    /// The module holding every emitted declaration for the interface.
    ImplModule(NameId),
    /// The transparent local newtype that ties the emitted impls to this
    /// crate.
    Newtype(NameId),
    /// The local binding holding the erased self-pointer in a forwarding
    /// method.
    SelfLocal,
    /// The local binding holding the loaded metadata in a forwarding method.
    MetaLocal,
    /// The generic parameter standing for the implementing concrete type.
    Concrete,
}

/// The names every emitted declaration for one interface is built from.
#[derive(Clone, Copy, Debug, PartialEq, Eq, Structural)]
pub struct CommonNames {
    /// The runtime library's path.
    pub tinydyn: GenName,
    /// The runtime's private support module.
    pub private: GenName,
    /// The erased self-pointer binding.
    pub self_local: GenName,
    /// The loaded-metadata binding.
    pub meta_local: GenName,
    /// The interface's name.
    pub trait_ident: GenName,
    /// The abstract interface type.
    pub trait_object: GenName,
    /// The table record type.
    pub vtable_ident: GenName,
    /// The concrete-type parameter.
    pub concrete: GenName,
}

/// The names derived from one interface name.
pub open spec fn common_names_for(trait_ident: NameId) -> CommonNames {
    CommonNames {
        tinydyn: GenName::RuntimeCrate,
        private: GenName::PrivateModule,
        self_local: GenName::SelfLocal,
        meta_local: GenName::MetaLocal,
        trait_ident: GenName::TraitName(trait_ident),
        trait_object: GenName::TraitObject(trait_ident),
        vtable_ident: GenName::Vtable(trait_ident),
        concrete: GenName::Concrete,
    }
}

impl CommonNames {
    /// Derives every shared name from the interface's name.
    pub fn new(trait_ident: NameId) -> (r: CommonNames)
        ensures
            r == common_names_for(trait_ident),
    {
        CommonNames {
            tinydyn: GenName::RuntimeCrate,
            private: GenName::PrivateModule,
            self_local: GenName::SelfLocal,
            meta_local: GenName::MetaLocal,
            trait_ident: GenName::TraitName(trait_ident),
            trait_object: GenName::TraitObject(trait_ident),
            vtable_ident: GenName::Vtable(trait_ident),
            concrete: GenName::Concrete,
        }
    }
}

/// The type statically allocated once per (interface, concrete type) pair.
#[derive(Clone, Copy, Debug, PartialEq, Eq, Structural)]
pub enum StaticVtableTy {
    /// Inline layout: no table is allocated; the runtime's unit marker type
    /// `InlineVTable` stands in.
    InlineMarker,
    /// Struct layout: the table record type itself.
    Record(GenName),
}

/// The metadata type carried inside the wide reference.
#[derive(Clone, Copy, Debug, PartialEq, Eq, Structural)]
pub enum MetadataTy {
    /// Inline layout: the one-field table record by value — representation-
    /// identical to the single method's function pointer.
    ByValueVtable(GenName),
    /// Struct layout: a pointer to the statically allocated table record.
    StaticTableRef(GenName),
}

/// How a concrete type's metadata is obtained when a wide reference is
/// constructed.
#[derive(Clone, Copy, Debug, PartialEq, Eq, Structural)]
pub enum MetadataGetter {
    /// Inline layout: build the one-field record in place.
    BuildInline,
    /// Struct layout: take the address of the static table instance.
    AddressOfStatic,
}

/// How a forwarding method reaches its table entry.
#[derive(Clone, Copy, Debug, PartialEq, Eq, Structural)]
pub enum EntryAccess {
    /// Inline layout: the metadata is the function pointer itself.
    InlineValue,
    /// Struct layout: read the field named after the method from the table
    /// the metadata points to.
    TableField(NameId),
}

/// The plan of one forwarding method: load the metadata, obtain the erased
/// self-pointer of the right access kind, reinterpret the flagged arguments
/// into their erased forms, invoke the entry, and reinterpret the result
/// back if flagged.
#[derive(Debug)]
pub struct ForwardingPlan {
    /// The method being forwarded.
    pub method: NameId,
    /// The access kind of the erased self-pointer to obtain.
    pub access: ReceiverKind,
    /// Per non-receiver argument, in declaration order: whether it crosses
    /// the verified reinterpretation on the way in.
    pub arg_reinterps: Vec<bool>,
    /// Whether the result crosses the verified reinterpretation on the way
    /// back.
    pub output_reinterp: bool,
    /// How the entry is reached.
    pub entry: EntryAccess,
}

/// `f` is the forwarding plan of method `m` under `layout`.
pub open spec fn forwarding_matches(f: ForwardingPlan, m: MethodDescriptor, layout: TableLayout) -> bool {
    &&& f.method == m.name
    &&& f.access == m.receiver
    &&& f.arg_reinterps@ == m.args@.map_values(|a: ArgumentDescriptor| a.needs_reinterp)
    &&& f.output_reinterp == (match m.ret {
        Some(a) => a.needs_reinterp,
        None => false,
    })
    &&& f.entry == (if layout is Inline {
        EntryAccess::InlineValue
    } else {
        EntryAccess::TableField(m.name)
    })
}

/// Everything to be emitted for one accepted interface.
#[derive(Debug)]
pub struct ModulePlan {
    /// The shared generated names.
    pub names: CommonNames,
    /// The module that holds every emitted declaration.
    pub module_name: GenName,
    /// The transparent local newtype.
    pub newtype_name: GenName,
    /// The normalized interface: its method descriptors are the table record
    /// fields, in declaration order.
    pub interface: InterfaceDescriptor,
    /// The layout the method count decides.
    pub layout: TableLayout,
    /// What is statically allocated per (interface, concrete type) pair.
    pub static_vtable_ty: StaticVtableTy,
    /// What the wide reference carries as metadata.
    pub metadata_ty: MetadataTy,
    /// How construction obtains the metadata.
    pub metadata_getter: MetadataGetter,
    /// One forwarding plan per method, in declaration order.
    pub forwarding: Vec<ForwardingPlan>,
    /// The four capability relabeling declarations.
    pub capability_impls: Vec<CapabilityImpl>,
}

/// `p` is the full plan derived from the descriptor `desc`.
pub open spec fn plan_matches(p: ModulePlan, desc: InterfaceDescriptor) -> bool {
    &&& p.names == common_names_for(desc.name)
    &&& p.module_name == GenName::ImplModule(desc.name)
    &&& p.newtype_name == GenName::Newtype(desc.name)
    &&& p.interface == desc
    &&& p.layout == layout_for(desc.methods@.len() as nat)
    &&& (p.layout is Inline ==> {
        &&& p.static_vtable_ty == StaticVtableTy::InlineMarker
        &&& p.metadata_ty == MetadataTy::ByValueVtable(GenName::Vtable(desc.name))
        &&& p.metadata_getter == MetadataGetter::BuildInline
    })
    &&& (p.layout is Struct ==> {
        &&& p.static_vtable_ty == StaticVtableTy::Record(GenName::Vtable(desc.name))
        &&& p.metadata_ty == MetadataTy::StaticTableRef(GenName::Vtable(desc.name))
        &&& p.metadata_getter == MetadataGetter::AddressOfStatic
    })
    &&& p.forwarding@.len() == desc.methods@.len()
    &&& forall|i: int|
        0 <= i < desc.methods@.len() ==> forwarding_matches(
            #[trigger] p.forwarding@[i],
            desc.methods@[i],
            p.layout,
        )
    &&& p.capability_impls@ == capability_impls()
}

/// Derives the forwarding plan of one method under the given layout.
pub fn build_forwarding(m: &MethodDescriptor, layout: TableLayout) -> (r: ForwardingPlan)
    ensures
        forwarding_matches(r, *m, layout),
{
    let mut arg_reinterps: Vec<bool> = Vec::new();
    let mut i: usize = 0;
    while i < m.args.len()
        invariant
            i <= m.args.len(),
            arg_reinterps@ == m.args@.take(i as int).map_values(
                |a: ArgumentDescriptor| a.needs_reinterp,
            ),
        decreases m.args.len() - i,
    {
        arg_reinterps.push(m.args[i].needs_reinterp);
        proof {
            assert(m.args@.take(i + 1).map_values(|a: ArgumentDescriptor| a.needs_reinterp)
                =~= m.args@.take(i as int).map_values(
                |a: ArgumentDescriptor| a.needs_reinterp,
            ).push(m.args@[i as int].needs_reinterp));
        }
        i = i + 1;
    }
    proof {
        assert(m.args@.take(m.args@.len() as int) =~= m.args@);
    }
    let output_reinterp = match &m.ret {
        Some(a) => a.needs_reinterp,
        None => false,
    };
    let entry = match layout {
        TableLayout::Inline => EntryAccess::InlineValue,
        TableLayout::Struct => EntryAccess::TableField(m.name),
    };
    ForwardingPlan { method: m.name, access: m.receiver, arg_reinterps, output_reinterp, entry }
}

/// Derives the whole emission plan from an accepted interface descriptor.
///
/// The layout is a pure function of the method count; everything
/// layout-dependent — the static table type, the metadata type, the
/// metadata getter and every forwarding plan's entry access — follows it.
pub fn build_plan(desc: InterfaceDescriptor) -> (p: ModulePlan)
    ensures
        plan_matches(p, desc),
{
    let names = CommonNames::new(desc.name);
    let layout = select_layout(desc.methods.len());

    let mut forwarding: Vec<ForwardingPlan> = Vec::new();
    let mut i: usize = 0;
    while i < desc.methods.len()
        invariant
            i <= desc.methods.len(),
            forwarding@.len() == i,
            forall|j: int|
                0 <= j < i ==> forwarding_matches(
                    #[trigger] forwarding@[j],
                    desc.methods@[j],
                    layout,
                ),
        decreases desc.methods.len() - i,
    {
        let f = build_forwarding(&desc.methods[i], layout);
        forwarding.push(f);
        i = i + 1;
    }

    let (static_vtable_ty, metadata_ty, metadata_getter) = match layout {
        TableLayout::Inline => (
            StaticVtableTy::InlineMarker,
            MetadataTy::ByValueVtable(GenName::Vtable(desc.name)),
            MetadataGetter::BuildInline,
        ),
        TableLayout::Struct => (
            StaticVtableTy::Record(GenName::Vtable(desc.name)),
            MetadataTy::StaticTableRef(GenName::Vtable(desc.name)),
            MetadataGetter::AddressOfStatic,
        ),
    };
    let module_name = GenName::ImplModule(desc.name);
    let newtype_name = GenName::Newtype(desc.name);
    let capability_impls = build_capability_impls();
    ModulePlan {
        names,
        module_name,
        newtype_name,
        interface: desc,
        layout,
        static_vtable_ty,
        metadata_ty,
        metadata_getter,
        forwarding,
        capability_impls,
    }
}

/// The whole compilation pipeline for one interface: validate and normalize
/// the definition, then derive the emission plan.
///
/// Succeeds exactly on interfaces within the supported subset; a rejected
/// interface yields the diagnostic for the first offending construct and no
/// plan — nothing is emitted for it.
pub fn compile_interface(def: &InterfaceDef) -> (r: Result<ModulePlan, UnsupportedConstruct>)
    ensures
        r is Ok <==> interface_accepted(*def),
        r matches Ok(p) ==> describes_interface(p.interface, *def) && plan_matches(p, p.interface),
        r matches Err(e) ==> e == interface_reject(*def),
{
    let desc = match analyze_interface(def) {
        Ok(desc) => desc,
        Err(e) => {
            return Err(e);
        },
    };
    Ok(build_plan(desc))
}

} // verus!
