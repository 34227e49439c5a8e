//! The dispatch machine: an executable semantics for the generated code.
//!
//! The compilation pipeline emits, per interface and concrete type, a table
//! of function pointers and forwarding glue; the runtime carries wide
//! references whose metadata is a function pointer or a table pointer. This
//! module gives those pointers meaning: a store of addressable objects, a
//! code area mapping function addresses to method implementations, and a
//! registry of the tables allocated once per (interface, concrete type)
//! pair. Dispatch through an erased reference is proved to invoke exactly
//! the implementation a direct call on the typed receiver would.

use vstd::prelude::*;

use crate::caps::CapabilityVariant;
use crate::layout::layout_for;
use crate::runtime::{DynPtr, DynTarget, ErasedAddr, FnAddr, Meta, Ref, RefMut, SelfPtr};

verus! {

/// A value crossing a dispatch call: the supported argument and return
/// shapes are plain values and addresses standing for references.
#[derive(Clone, Copy, Debug, PartialEq, Eq, Structural)]
pub enum Value {
    /// No value: a method without a return type, or without an argument.
    Unit,
    /// A plain integer, passed by value.
    Int(i64),
    /// The address of an object: a reference crossing the call.
    Addr(usize),
}

/// An object in the store.
#[derive(Clone, Copy, Debug, PartialEq, Eq, Structural)]
pub enum Object {
    /// An integer cell.
    Cell(i64),
    /// A wrapper holding a reference to a cell: one level of indirection.
    Link(usize),
}

/// What one compiled method implementation does when invoked on a receiver.
#[derive(Clone, Copy, Debug, PartialEq, Eq, Structural)]
pub enum MethodBody {
    /// Read the cell the receiver resolves to.
    GetCell,
    /// Store the integer argument into the cell the receiver resolves to.
    SetCell,
    /// Add the integer argument to the cell the receiver resolves to,
    /// wrapping.
    BumpCell,
    /// The receiver's cell plus a constant, wrapping.
    SelfPlus(i64),
    /// A constant, independent of the receiver.
    ConstInt(i64),
    /// The argument handed back unchanged — a result derived from an
    /// argument reference keeps its exact address.
    EchoArg,
    /// The address of the cell the receiver resolves to — a reference into
    /// the receiver.
    SelfAddr,
}

/// The address an object's cell lives at: a link resolves to its target,
/// a cell to itself.
pub open spec fn resolve_addr(store: Seq<Object>, a: usize) -> usize {
    match store[a as int] {
        Object::Link(t) => t,
        Object::Cell(_) => a,
    }
}

/// The address designates an object whose cell is reachable in the store.
pub open spec fn addr_ok(store: Seq<Object>, a: usize) -> bool {
    &&& (a as int) < store.len()
    &&& (resolve_addr(store, a) as int) < store.len()
    &&& store[resolve_addr(store, a) as int] is Cell
}

/// Whether the argument has the shape the implementation consumes.
pub open spec fn body_arg_ok(b: MethodBody, arg: Value) -> bool {
    match b {
        MethodBody::SetCell => arg is Int,
        MethodBody::BumpCell => arg is Int,
        _ => true,
    }
}

/// The value an implementation returns for a receiver and an argument.
pub open spec fn body_result(b: MethodBody, store: Seq<Object>, a: usize, arg: Value) -> Value {
    let t = resolve_addr(store, a);
    let cur = store[t as int]->Cell_0;
    match b {
        MethodBody::GetCell => Value::Int(cur),
        MethodBody::SetCell => Value::Unit,
        MethodBody::BumpCell => Value::Unit,
        MethodBody::SelfPlus(k) => Value::Int(cur.wrapping_add(k)),
        MethodBody::ConstInt(k) => Value::Int(k),
        MethodBody::EchoArg => arg,
        MethodBody::SelfAddr => Value::Addr(t),
    }
}

/// The store an implementation leaves behind.
pub open spec fn body_store(b: MethodBody, store: Seq<Object>, a: usize, arg: Value) -> Seq<
    Object,
> {
    let t = resolve_addr(store, a);
    let cur = store[t as int]->Cell_0;
    match b {
        MethodBody::SetCell => store.update(t as int, Object::Cell(arg->Int_0)),
        MethodBody::BumpCell => store.update(t as int, Object::Cell(cur.wrapping_add(arg->Int_0))),
        _ => store,
    }
}

/// Resolves the receiver to the address its cell lives at.
fn resolve_target(store: &Vec<Object>, a: usize) -> (t: usize)
    requires
        addr_ok(store@, a),
    ensures
        t == resolve_addr(store@, a),
{
    match store[a] {
        Object::Link(t) => t,
        Object::Cell(_) => a,
    }
}

/// The integer inside an argument known to carry one.
fn int_value(arg: Value) -> (v: i64)
    requires
        arg is Int,
    ensures
        v == arg->Int_0,
{
    match arg {
        Value::Int(v) => v,
        _ => {
            proof {
                assert(false);
            }
            0
        },
    }
}

/// Runs one method implementation on the erased receiver: the body of every
/// table entry, shared by erased dispatch and by direct calls.
pub fn run_body(store: &mut Vec<Object>, body: MethodBody, self_ptr: SelfPtr, arg: Value) -> (out:
    Value)
    requires
        addr_ok(old(store)@, self_ptr.addr),
        body_arg_ok(body, arg),
    ensures
        final(store)@ == body_store(body, old(store)@, self_ptr.addr, arg),
        out == body_result(body, old(store)@, self_ptr.addr, arg),
{
    let t = resolve_target(store, self_ptr.addr);
    match body {
        MethodBody::GetCell => {
            match store[t] {
                Object::Cell(v) => Value::Int(v),
                Object::Link(_) => {
                    proof {
                        assert(false);
                    }
                    Value::Unit
                },
            }
        },
        MethodBody::SetCell => {
            let v = int_value(arg);
            store.set(t, Object::Cell(v));
            Value::Unit
        },
        MethodBody::BumpCell => {
            let v = int_value(arg);
            match store[t] {
                Object::Cell(cur) => {
                    store.set(t, Object::Cell(cur.wrapping_add(v)));
                },
                Object::Link(_) => {
                    proof {
                        assert(false);
                    }
                },
            }
            Value::Unit
        },
        MethodBody::SelfPlus(k) => {
            match store[t] {
                Object::Cell(v) => Value::Int(v.wrapping_add(k)),
                Object::Link(_) => {
                    proof {
                        assert(false);
                    }
                    Value::Unit
                },
            }
        },
        MethodBody::ConstInt(k) => Value::Int(k),
        MethodBody::EchoArg => arg,
        MethodBody::SelfAddr => Value::Addr(t),
    }
}

/// The runtime face of one compiled interface: its identity and, per method
/// in declaration order, the compiled default body if the interface
/// provides one.
#[derive(Debug)]
pub struct RuntimeInterface {
    /// The interface's identity.
    pub iface: u32,
    /// Per method: the default implementation's code address, if any.
    pub defaults: Vec<Option<FnAddr>>,
}

/// One concrete type's implementation of an interface: per method in
/// declaration order, the overriding implementation's code address if the
/// type provides one.
#[derive(Debug)]
pub struct ConcreteImpl {
    /// The concrete type's identity.
    pub concrete: u32,
    /// Per method: the override's code address, if any.
    pub overrides: Vec<Option<FnAddr>>,
}

/// The concrete type covers every method: an override, or a default to
/// inherit.
pub open spec fn implements_ok(ri: RuntimeInterface, ci: ConcreteImpl) -> bool {
    &&& ci.overrides@.len() == ri.defaults@.len()
    &&& forall|i: int|
        0 <= i < ri.defaults@.len() ==> (#[trigger] ci.overrides@[i]) is Some
            || ri.defaults@[i] is Some
}

/// The implementation a method resolves to: whichever the concrete type
/// exposes — its override when present, the inherited default otherwise.
pub open spec fn resolved(ri: RuntimeInterface, ci: ConcreteImpl, i: int) -> FnAddr
    recommends
        implements_ok(ri, ci),
        0 <= i < ri.defaults@.len(),
{
    match ci.overrides@[i] {
        Some(f) => f,
        None => ri.defaults@[i]->Some_0,
    }
}

/// Every resolved implementation lies inside the code area.
pub open spec fn resolved_bounded(ri: RuntimeInterface, ci: ConcreteImpl, bound: int) -> bool {
    forall|i: int| 0 <= i < ri.defaults@.len() ==> #[trigger] resolved(ri, ci, i) < bound
}

/// A dispatch table allocated once for an (interface, concrete type) pair.
#[derive(Debug)]
pub struct TableRecord {
    /// The interface the table serves.
    pub iface: u32,
    /// The concrete type it was built for.
    pub concrete: u32,
    /// One resolved implementation per method, in declaration order.
    pub entries: Vec<FnAddr>,
}

/// The table belongs to the given (interface, concrete type) pair.
pub open spec fn table_key_matches(t: TableRecord, iface: u32, cid: u32) -> bool {
    t.iface == iface && t.concrete == cid
}

/// The table's entries are exactly the resolved implementations.
pub open spec fn entries_ok(entries: Seq<FnAddr>, ri: RuntimeInterface, ci: ConcreteImpl) -> bool {
    &&& entries.len() == ri.defaults@.len()
    &&& forall|i: int|
        0 <= i < entries.len() ==> #[trigger] entries[i] == resolved(ri, ci, i)
}

/// The first table for the pair at or after position `i`.
pub open spec fn find_table_from(tables: Seq<TableRecord>, iface: u32, cid: u32, i: int) -> Option<
    int,
>
    decreases tables.len() - i,
{
    if i < 0 || i >= tables.len() {
        None
    } else if table_key_matches(tables[i], iface, cid) {
        Some(i)
    } else {
        find_table_from(tables, iface, cid, i + 1)
    }
}

/// The first table allocated for the pair, if any.
pub open spec fn find_table(tables: Seq<TableRecord>, iface: u32, cid: u32) -> Option<int> {
    find_table_from(tables, iface, cid, 0)
}

/// What `find_table_from` returns: the first matching position, or nothing
/// when no table at or after `i` matches.
pub proof fn lemma_find_from(tables: Seq<TableRecord>, iface: u32, cid: u32, i: int)
    requires
        0 <= i <= tables.len(),
    ensures
        match find_table_from(tables, iface, cid, i) {
            None => forall|j: int|
                i <= j < tables.len() ==> !table_key_matches(#[trigger] tables[j], iface, cid),
            Some(k) => i <= k < tables.len() && table_key_matches(tables[k], iface, cid) && forall|
                j: int,
            | i <= j < k ==> !table_key_matches(#[trigger] tables[j], iface, cid),
        },
    decreases tables.len() - i,
{
    if i < tables.len() {
        lemma_find_from(tables, iface, cid, i + 1);
    }
}

/// If no table before `k` matches and the one at `k` does, the search finds
/// exactly `k`.
pub proof fn lemma_find_from_hits(tables: Seq<TableRecord>, iface: u32, cid: u32, i: int, k: int)
    requires
        0 <= i <= k < tables.len(),
        table_key_matches(tables[k], iface, cid),
        forall|j: int| i <= j < k ==> !table_key_matches(#[trigger] tables[j], iface, cid),
    ensures
        find_table_from(tables, iface, cid, i) == Some(k),
    decreases k - i,
{
    if i < k {
        lemma_find_from_hits(tables, iface, cid, i + 1, k);
    }
}

/// Every table registered for the pair holds exactly the resolved
/// implementations. Tables are written once, before any wide reference
/// to them exists, and never mutated after.
pub open spec fn tables_ok(tables: Seq<TableRecord>, ri: RuntimeInterface, ci: ConcreteImpl) -> bool {
    forall|j: int|
        0 <= j < tables.len() && table_key_matches(#[trigger] tables[j], ri.iface, ci.concrete)
            ==> entries_ok(tables[j].entries@, ri, ci)
}

/// How one metadata construction changes the table registry: an existing
/// table is reused untouched, a missing one is allocated exactly once at
/// the end.
pub open spec fn table_ensure(
    t0: Seq<TableRecord>,
    t1: Seq<TableRecord>,
    ri: RuntimeInterface,
    ci: ConcreteImpl,
    m: Meta,
) -> bool {
    match find_table(t0, ri.iface, ci.concrete) {
        Some(i) => t1 == t0 && m == Meta::TableRef(i as usize),
        None => {
            &&& t1.len() == t0.len() + 1
            &&& t1.take(t0.len() as int) == t0
            &&& table_key_matches(t1.last(), ri.iface, ci.concrete)
            &&& entries_ok(t1.last().entries@, ri, ci)
            &&& m == Meta::TableRef(t0.len() as usize)
        },
    }
}

/// The metadata is well-formed for the pair against the registry: the
/// layout follows the method count, an inline metadata is the single
/// resolved implementation itself, and a table metadata points at the
/// pair's registered table.
pub open spec fn meta_ok(
    tables: Seq<TableRecord>,
    ri: RuntimeInterface,
    ci: ConcreteImpl,
    m: Meta,
) -> bool {
    let n = ri.defaults@.len();
    if n == 0 {
        m == Meta::UnitVtable
    } else if n == 1 {
        m == Meta::InlineFn(resolved(ri, ci, 0))
    } else {
        m matches Meta::TableRef(t) && find_table(tables, ri.iface, ci.concrete) == Some(t as int)
    }
}

/// The implementation the metadata reaches for a method index.
pub open spec fn entry_of(tables: Seq<TableRecord>, m: Meta, method: int) -> FnAddr {
    match m {
        Meta::UnitVtable => 0,
        Meta::InlineFn(f) => f,
        Meta::TableRef(t) => tables[t as int].entries@[method],
    }
}

/// The machine: the store of objects, the code area, and the table
/// registry.
#[derive(Debug)]
pub struct Machine {
    /// Addressable objects.
    pub store: Vec<Object>,
    /// Compiled method implementations; a function pointer is an index in
    /// here.
    pub fns: Vec<MethodBody>,
    /// The tables allocated so far, append-only.
    pub tables: Vec<TableRecord>,
}

/// The dispatch is in bounds and the argument fits the implementation it
/// reaches.
pub open spec fn dispatch_ok(mach: Machine, p: DynPtr, method: int, arg: Value) -> bool {
    &&& (match p.meta {
        Meta::UnitVtable => false,
        Meta::InlineFn(f) => method == 0 && f < mach.fns@.len(),
        Meta::TableRef(t) => {
            &&& (t as int) < mach.tables@.len()
            &&& 0 <= method < mach.tables@[t as int].entries@.len()
            &&& mach.tables@[t as int].entries@[method] < mach.fns@.len()
        },
    })
    &&& addr_ok(mach.store@, p.data)
    &&& body_arg_ok(mach.fns@[entry_of(mach.tables@, p.meta, method) as int], arg)
}

impl Machine {
    /// An empty machine: nothing allocated, no code, no tables.
    pub fn new() -> (m: Machine)
        ensures
            m.store@.len() == 0,
            m.fns@.len() == 0,
            m.tables@.len() == 0,
    {
        Machine { store: Vec::new(), fns: Vec::new(), tables: Vec::new() }
    }

    /// Places an integer cell and hands back its address.
    pub fn alloc_cell(&mut self, v: i64) -> (a: usize)
        ensures
            final(self).store@ == old(self).store@.push(Object::Cell(v)),
            a == old(self).store@.len(),
            final(self).fns == old(self).fns,
            final(self).tables == old(self).tables,
    {
        let a = self.store.len();
        self.store.push(Object::Cell(v));
        a
    }

    /// Places a wrapper object referencing an existing cell and hands back
    /// its address.
    pub fn alloc_link(&mut self, target: usize) -> (a: usize)
        requires
            (target as int) < old(self).store@.len(),
            old(self).store@[target as int] is Cell,
        ensures
            final(self).store@ == old(self).store@.push(Object::Link(target)),
            a == old(self).store@.len(),
            final(self).fns == old(self).fns,
            final(self).tables == old(self).tables,
    {
        let a = self.store.len();
        self.store.push(Object::Link(target));
        a
    }

    /// Compiles one method implementation into the code area and hands back
    /// its function pointer.
    pub fn register_fn(&mut self, body: MethodBody) -> (f: FnAddr)
        ensures
            final(self).fns@ == old(self).fns@.push(body),
            f == old(self).fns@.len(),
            final(self).store == old(self).store,
            final(self).tables == old(self).tables,
    {
        let f = self.fns.len();
        self.fns.push(body);
        f
    }

    /// Reads the cell an address resolves to, for observation from outside
    /// any dispatch.
    pub fn read_cell(&self, a: usize) -> (v: i64)
        requires
            addr_ok(self.store@, a),
        ensures
            v == self.store@[resolve_addr(self.store@, a) as int]->Cell_0,
    {
        let t = resolve_target(&self.store, a);
        match self.store[t] {
            Object::Cell(v) => v,
            Object::Link(_) => {
                proof {
                    assert(false);
                }
                0
            },
        }
    }

    /// Resolves one method of the pair to the implementation the concrete
    /// type exposes.
    pub fn resolve_method(ri: &RuntimeInterface, ci: &ConcreteImpl, i: usize) -> (f: FnAddr)
        requires
            implements_ok(*ri, *ci),
            (i as int) < ri.defaults@.len(),
        ensures
            f == resolved(*ri, *ci, i as int),
    {
        let o = ci.overrides[i];
        match o {
            Some(f) => f,
            None => {
                let d = ri.defaults[i];
                match d {
                    Some(f) => f,
                    None => {
                        proof {
                            assert(false);
                        }
                        0
                    },
                }
            },
        }
    }

    /// Builds the metadata a wide reference to this pair carries, as the
    /// generated `metadata` getter does: for at most one method the table
    /// collapses into the metadata itself and nothing is allocated; for two
    /// or more, the pair's table is found or allocated exactly once and the
    /// metadata points at it.
    pub fn metadata_for(&mut self, ri: &RuntimeInterface, ci: &ConcreteImpl) -> (m: Meta)
        requires
            implements_ok(*ri, *ci),
            tables_ok(old(self).tables@, *ri, *ci),
        ensures
            final(self).store == old(self).store,
            final(self).fns == old(self).fns,
            meta_ok(final(self).tables@, *ri, *ci, m),
            tables_ok(final(self).tables@, *ri, *ci),
            ri.defaults@.len() <= 1 ==> final(self).tables == old(self).tables,
            ri.defaults@.len() >= 2 ==> table_ensure(
                old(self).tables@,
                final(self).tables@,
                *ri,
                *ci,
                m,
            ),
    {
        let n = ri.defaults.len();
        if n == 0 {
            return Meta::UnitVtable;
        }
        if n == 1 {
            let f = Machine::resolve_method(ri, ci, 0);
            return Meta::InlineFn(f);
        }

        let ghost t0 = self.tables@;
        let mut i: usize = 0;
        while i < self.tables.len()
            invariant
                i <= self.tables@.len(),
                self.tables@ == t0,
                implements_ok(*ri, *ci),
                tables_ok(t0, *ri, *ci),
                n == ri.defaults@.len(),
                n >= 2,
                find_table(t0, ri.iface, ci.concrete) == find_table_from(
                    t0,
                    ri.iface,
                    ci.concrete,
                    i as int,
                ),
            decreases self.tables@.len() - i,
        {
            if self.tables[i].iface == ri.iface && self.tables[i].concrete == ci.concrete {
                assert(find_table(t0, ri.iface, ci.concrete) == Some(i as int));
                return Meta::TableRef(i);
            }
            i = i + 1;
        }
        assert(find_table(t0, ri.iface, ci.concrete) is None);

        let mut entries: Vec<FnAddr> = Vec::new();
        let mut k: usize = 0;
        while k < n
            invariant
                implements_ok(*ri, *ci),
                n == ri.defaults@.len(),
                k <= n,
                entries@.len() == k,
                forall|j: int| 0 <= j < k ==> #[trigger] entries@[j] == resolved(*ri, *ci, j),
            decreases n - k,
        {
            let f = Machine::resolve_method(ri, ci, k);
            entries.push(f);
            k = k + 1;
        }
        let idx = self.tables.len();
        self.tables.push(TableRecord { iface: ri.iface, concrete: ci.concrete, entries });
        proof {
            assert(self.tables@.take(t0.len() as int) =~= t0);
            lemma_find_from(t0, ri.iface, ci.concrete, 0);
            assert forall|j: int|
                0 <= j < t0.len() implies !table_key_matches(
                #[trigger] self.tables@[j],
                ri.iface,
                ci.concrete,
            ) by {
                assert(self.tables@[j] == t0[j]);
            }
            lemma_find_from_hits(self.tables@, ri.iface, ci.concrete, 0, t0.len() as int);
        }
        Meta::TableRef(idx)
    }

    /// Erases a typed shared reference: captures its address and the pair's
    /// metadata into a shared wide reference carrying the given capability
    /// label.
    pub fn erase_shared(
        &mut self,
        ri: &RuntimeInterface,
        ci: &ConcreteImpl,
        addr: ErasedAddr,
        caps: CapabilityVariant,
    ) -> (r: Ref)
        requires
            implements_ok(*ri, *ci),
            tables_ok(old(self).tables@, *ri, *ci),
        ensures
            final(self).store == old(self).store,
            final(self).fns == old(self).fns,
            r.inner.data == addr,
            r.inner.caps == caps,
            meta_ok(final(self).tables@, *ri, *ci, r.inner.meta),
            tables_ok(final(self).tables@, *ri, *ci),
            ri.defaults@.len() <= 1 ==> final(self).tables == old(self).tables,
            ri.defaults@.len() >= 2 ==> table_ensure(
                old(self).tables@,
                final(self).tables@,
                *ri,
                *ci,
                r.inner.meta,
            ),
    {
        let meta = self.metadata_for(ri, ci);
        Ref::new(addr, meta, caps)
    }

    /// Erases a typed exclusive reference: as `erase_shared`, producing the
    /// exclusive wide reference.
    pub fn erase_exclusive(
        &mut self,
        ri: &RuntimeInterface,
        ci: &ConcreteImpl,
        addr: ErasedAddr,
        caps: CapabilityVariant,
    ) -> (r: RefMut)
        requires
            implements_ok(*ri, *ci),
            tables_ok(old(self).tables@, *ri, *ci),
        ensures
            final(self).store == old(self).store,
            final(self).fns == old(self).fns,
            r.inner.data == addr,
            r.inner.caps == caps,
            meta_ok(final(self).tables@, *ri, *ci, r.inner.meta),
            tables_ok(final(self).tables@, *ri, *ci),
            ri.defaults@.len() <= 1 ==> final(self).tables == old(self).tables,
            ri.defaults@.len() >= 2 ==> table_ensure(
                old(self).tables@,
                final(self).tables@,
                *ri,
                *ci,
                r.inner.meta,
            ),
    {
        let meta = self.metadata_for(ri, ci);
        RefMut::new(addr, meta, caps)
    }

    /// A forwarding call through a shared wide reference: loads the
    /// metadata, obtains the shared erased self-pointer, resolves the entry
    /// — the inline value directly, or the method's field of the table the
    /// metadata points to — and runs it.
    pub fn call_shared(&mut self, r: &Ref, method: usize, arg: Value) -> (out: Value)
        requires
            dispatch_ok(*old(self), r.inner, method as int, arg),
        ensures
            final(self).fns == old(self).fns,
            final(self).tables == old(self).tables,
            final(self).store@ == body_store(
                old(self).fns@[entry_of(old(self).tables@, r.inner.meta, method as int) as int],
                old(self).store@,
                r.inner.data,
                arg,
            ),
            out == body_result(
                old(self).fns@[entry_of(old(self).tables@, r.inner.meta, method as int) as int],
                old(self).store@,
                r.inner.data,
                arg,
            ),
    {
        let target = r.target();
        let meta = DynTarget::meta(&target);
        let self_ptr = DynTarget::self_ref(&target);
        let f: FnAddr = match meta {
            Meta::InlineFn(f) => f,
            Meta::TableRef(t) => self.tables[t].entries[method],
            Meta::UnitVtable => {
                proof {
                    assert(false);
                }
                0
            },
        };
        let body = self.fns[f];
        run_body(&mut self.store, body, self_ptr, arg)
    }

    /// A forwarding call through an exclusive wide reference: as
    /// `call_shared`, but through the exclusive erased self-pointer of a
    /// reborrowed target.
    pub fn call_exclusive(&mut self, r: &mut RefMut, method: usize, arg: Value) -> (out: Value)
        requires
            dispatch_ok(*old(self), old(r).inner, method as int, arg),
        ensures
            *final(r) == *old(r),
            final(self).fns == old(self).fns,
            final(self).tables == old(self).tables,
            final(self).store@ == body_store(
                old(self).fns@[entry_of(old(self).tables@, old(r).inner.meta, method as int) as int],
                old(self).store@,
                old(r).inner.data,
                arg,
            ),
            out == body_result(
                old(self).fns@[entry_of(old(self).tables@, old(r).inner.meta, method as int) as int],
                old(self).store@,
                old(r).inner.data,
                arg,
            ),
    {
        let mut target = r.target_mut();
        let meta = DynTarget::meta(&target);
        let self_ptr = DynTarget::self_mut(&mut target);
        let f: FnAddr = match meta {
            Meta::InlineFn(f) => f,
            Meta::TableRef(t) => self.tables[t].entries[method],
            Meta::UnitVtable => {
                proof {
                    assert(false);
                }
                0
            },
        };
        let body = self.fns[f];
        run_body(&mut self.store, body, self_ptr, arg)
    }

    /// A direct call of one method on the typed receiver, bypassing erasure
    /// and the tables entirely: the reference point the round-trip law
    /// compares dispatch against.
    pub fn call_direct(
        &mut self,
        ri: &RuntimeInterface,
        ci: &ConcreteImpl,
        method: usize,
        addr: ErasedAddr,
        arg: Value,
    ) -> (out: Value)
        requires
            implements_ok(*ri, *ci),
            (method as int) < ri.defaults@.len(),
            resolved(*ri, *ci, method as int) < old(self).fns@.len(),
            addr_ok(old(self).store@, addr),
            body_arg_ok(old(self).fns@[resolved(*ri, *ci, method as int) as int], arg),
        ensures
            final(self).fns == old(self).fns,
            final(self).tables == old(self).tables,
            final(self).store@ == body_store(
                old(self).fns@[resolved(*ri, *ci, method as int) as int],
                old(self).store@,
                addr,
                arg,
            ),
            out == body_result(
                old(self).fns@[resolved(*ri, *ci, method as int) as int],
                old(self).store@,
                addr,
                arg,
            ),
    {
        let f = Machine::resolve_method(ri, ci, method);
        let body = self.fns[f];
        run_body(&mut self.store, body, SelfPtr::new_ref(addr), arg)
    }
}

/// For an interface with exactly one method, a well-formed metadata is the
/// single resolved implementation's function pointer itself: nothing is
/// allocated behind it.
pub proof fn lemma_single_method_inline(
    tables: Seq<TableRecord>,
    ri: RuntimeInterface,
    ci: ConcreteImpl,
    m: Meta,
)
    requires
        ri.defaults@.len() == 1,
        meta_ok(tables, ri, ci, m),
    ensures
        m == Meta::InlineFn(resolved(ri, ci, 0)),
{
}

/// Building metadata for the same (interface, concrete type) pair a second
/// time allocates nothing and yields the identical table pointer: every
/// wide reference to any instance of that concrete type shares one table
/// instance.
pub proof fn lemma_table_instance_shared(
    t0: Seq<TableRecord>,
    t1: Seq<TableRecord>,
    t2: Seq<TableRecord>,
    ri: RuntimeInterface,
    ci: ConcreteImpl,
    m1: Meta,
    m2: Meta,
)
    requires
        table_ensure(t0, t1, ri, ci, m1),
        table_ensure(t1, t2, ri, ci, m2),
    ensures
        t2 == t1,
        m2 == m1,
{
    match find_table(t0, ri.iface, ci.concrete) {
        Some(i) => {
            assert(t1 == t0);
        },
        None => {
            lemma_find_from(t0, ri.iface, ci.concrete, 0);
            assert forall|j: int|
                0 <= j < t0.len() implies !table_key_matches(
                #[trigger] t1[j],
                ri.iface,
                ci.concrete,
            ) by {
                assert(t1[j] == t1.take(t0.len() as int)[j]);
            }
            lemma_find_from_hits(t1, ri.iface, ci.concrete, 0, t0.len() as int);
            assert(find_table(t1, ri.iface, ci.concrete) == Some(t0.len() as int));
        },
    }
}

/// The round trip: dispatching method `method` through a well-formed erased
/// reference reaches exactly the implementation the concrete type exposes —
/// the one a direct call on the typed receiver invokes — so the result and
/// the store after the call are identical for every supported argument and
/// return shape.
pub proof fn lemma_erased_call_round_trip(
    mach: Machine,
    ri: RuntimeInterface,
    ci: ConcreteImpl,
    p: DynPtr,
    method: int,
    arg: Value,
)
    requires
        implements_ok(ri, ci),
        tables_ok(mach.tables@, ri, ci),
        resolved_bounded(ri, ci, mach.fns@.len() as int),
        meta_ok(mach.tables@, ri, ci, p.meta),
        0 <= method < ri.defaults@.len(),
        addr_ok(mach.store@, p.data),
        body_arg_ok(mach.fns@[resolved(ri, ci, method) as int], arg),
    ensures
        entry_of(mach.tables@, p.meta, method) == resolved(ri, ci, method),
        dispatch_ok(mach, p, method, arg),
        body_result(
            mach.fns@[entry_of(mach.tables@, p.meta, method) as int],
            mach.store@,
            p.data,
            arg,
        ) == body_result(mach.fns@[resolved(ri, ci, method) as int], mach.store@, p.data, arg),
        body_store(
            mach.fns@[entry_of(mach.tables@, p.meta, method) as int],
            mach.store@,
            p.data,
            arg,
        ) == body_store(mach.fns@[resolved(ri, ci, method) as int], mach.store@, p.data, arg),
{
    let n = ri.defaults@.len() as int;
    assert(resolved(ri, ci, method) < mach.fns@.len());
    if n == 1 {
        assert(method == 0);
        assert(p.meta == Meta::InlineFn(resolved(ri, ci, 0)));
    } else {
        lemma_find_from(mach.tables@, ri.iface, ci.concrete, 0);
        let t = p.meta->TableRef_0;
        assert(find_table(mach.tables@, ri.iface, ci.concrete) == Some(t as int));
        assert(table_key_matches(mach.tables@[t as int], ri.iface, ci.concrete));
        assert(entries_ok(mach.tables@[t as int].entries@, ri, ci));
        assert(mach.tables@[t as int].entries@[method] == resolved(ri, ci, method));
        assert(entry_of(mach.tables@, p.meta, method) == mach.tables@[t as int].entries@[method]);
    }
}

/// The metadata representation follows the layout the method count decides:
/// exactly under the struct layout does the metadata carry a table pointer;
/// under the inline layout it is the function pointer itself, or the
/// trivial marker when there is no method at all.
pub proof fn lemma_metadata_follows_layout(
    tables: Seq<TableRecord>,
    ri: RuntimeInterface,
    ci: ConcreteImpl,
    m: Meta,
)
    requires
        meta_ok(tables, ri, ci, m),
    ensures
        layout_for(ri.defaults@.len() as nat) is Inline <==> !(m is TableRef),
        m is InlineFn <==> ri.defaults@.len() == 1,
        m is UnitVtable <==> ri.defaults@.len() == 0,
{
}

/// A method resolves to the overriding implementation when the concrete
/// type provides one, and to the interface's inherited default body
/// otherwise — the same resolution for every entry, inline or in a table.
pub proof fn lemma_default_method_resolution(ri: RuntimeInterface, ci: ConcreteImpl, i: int)
    requires
        implements_ok(ri, ci),
        0 <= i < ri.defaults@.len(),
    ensures
        (ci.overrides@[i] matches Some(f) ==> resolved(ri, ci, i) == f),
        (ci.overrides@[i] is None ==> resolved(ri, ci, i) == ri.defaults@[i]->Some_0),
{
}

} // verus!
