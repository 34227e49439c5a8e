//! Tests of the dispatch machine: erased references built per (interface,
//! concrete type), table sharing, inline metadata, default-method
//! resolution, and round trips against direct calls.

use tinydyn::caps::CapabilityVariant;
use tinydyn::machine::{ConcreteImpl, Machine, MethodBody, RuntimeInterface, Value};
use tinydyn::runtime::Meta;

fn addr_of(v: Value) -> usize {
    match v {
        Value::Addr(a) => a,
        _ => panic!("expected an address"),
    }
}

#[test]
fn all_scalar() {
    // An interface of two methods, get and set, over integer cells; one
    // concrete type is the cell itself, the other a wrapper holding a
    // reference to a cell. A dispatcher holds a shared erased reference and
    // sets values through it.
    let mut m = Machine::new();
    let get = m.register_fn(MethodBody::GetCell);
    let set = m.register_fn(MethodBody::SetCell);
    let int_cell = RuntimeInterface { iface: 1, defaults: vec![None, None] };
    let cell_impl = ConcreteImpl { concrete: 1, overrides: vec![Some(get), Some(set)] };
    let ref_impl = ConcreteImpl { concrete: 2, overrides: vec![Some(get), Some(set)] };

    let cell1 = m.alloc_cell(1);
    let cell2 = m.alloc_cell(2);
    let cell2_wrap = m.alloc_link(cell2);

    let mut client = m.erase_shared(&int_cell, &cell_impl, cell1, CapabilityVariant::Plain);
    m.call_shared(&client, 1, Value::Int(10));
    assert_eq!(m.read_cell(cell1), 10);
    client = m.erase_shared(&int_cell, &ref_impl, cell2_wrap, CapabilityVariant::Plain);
    m.call_shared(&client, 1, Value::Int(20));
    assert_eq!(m.read_cell(cell1), 10);
    assert_eq!(m.read_cell(cell2), 20);
}

#[test]
fn default_method() {
    // blah is required; blue has a default body of 10. One concrete type
    // inherits the default, the other overrides it.
    let mut m = Machine::new();
    let blah_for_int = m.register_fn(MethodBody::SelfPlus(1));
    let blue_default = m.register_fn(MethodBody::ConstInt(10));
    let blah_for_short = m.register_fn(MethodBody::SelfPlus(10));
    let blue_for_short = m.register_fn(MethodBody::SelfPlus(-10));
    let foo = RuntimeInterface { iface: 1, defaults: vec![None, Some(blue_default)] };
    let for_int = ConcreteImpl { concrete: 1, overrides: vec![Some(blah_for_int), None] };
    let for_short = ConcreteImpl {
        concrete: 2,
        overrides: vec![Some(blah_for_short), Some(blue_for_short)],
    };

    let a = m.alloc_cell(15);
    let b = m.alloc_cell(0);
    let mut x = m.erase_shared(&foo, &for_int, a, CapabilityVariant::Plain);
    assert_eq!(m.call_shared(&x, 0, Value::Unit), Value::Int(16));
    assert_eq!(m.call_shared(&x, 1, Value::Unit), Value::Int(10));
    x = m.erase_shared(&foo, &for_short, b, CapabilityVariant::Plain);
    assert_eq!(m.call_shared(&x, 0, Value::Unit), Value::Int(10));
    assert_eq!(m.call_shared(&x, 1, Value::Unit), Value::Int(-10));
}

#[test]
fn implicit_method_ref() {
    // Methods returning references into the receiver: the wrapper object
    // holds a reference to a cell holding 10, and every returned address
    // must lead back to that cell.
    let mut m = Machine::new();
    let get = m.register_fn(MethodBody::SelfAddr);
    let get_wrap = m.register_fn(MethodBody::SelfAddr);
    let get_arg_ref = m.register_fn(MethodBody::SelfAddr);
    let iface = RuntimeInterface { iface: 1, defaults: vec![None, None, None] };
    let wrap_impl = ConcreteImpl {
        concrete: 1,
        overrides: vec![Some(get), Some(get_wrap), Some(get_arg_ref)],
    };

    let ten = m.alloc_cell(10);
    let x = m.alloc_link(ten);
    let y = m.erase_shared(&iface, &wrap_impl, x, CapabilityVariant::Plain);
    let got = addr_of(m.call_shared(&y, 0, Value::Unit));
    assert_eq!(m.read_cell(got), 10);
    let got = addr_of(m.call_shared(&y, 1, Value::Unit));
    assert_eq!(m.read_cell(got), 10);
    let arg = m.alloc_cell(20);
    let got = addr_of(m.call_shared(&y, 2, Value::Addr(arg)));
    assert_eq!(m.read_cell(got), 10);
}

#[test]
fn method_lifetime_generics() {
    // The concrete receiver holds 0. The first method hands its argument
    // reference back, the second returns a reference to the receiver's own
    // field, the third clones the receiver's value.
    let mut m = Machine::new();
    let pick_arg = m.register_fn(MethodBody::EchoArg);
    let own_field = m.register_fn(MethodBody::SelfAddr);
    let as_value = m.register_fn(MethodBody::GetCell);
    let iface = RuntimeInterface { iface: 1, defaults: vec![None, None, None] };
    let bar_impl = ConcreteImpl {
        concrete: 1,
        overrides: vec![Some(pick_arg), Some(own_field), Some(as_value)],
    };

    let bar = m.alloc_cell(0);
    let y = m.erase_shared(&iface, &bar_impl, bar, CapabilityVariant::Plain);
    let arg = m.alloc_cell(10);
    let got = addr_of(m.call_shared(&y, 0, Value::Addr(arg)));
    assert_eq!(m.read_cell(got), 10);
    let one = m.alloc_cell(1);
    let got = addr_of(m.call_shared(&y, 1, Value::Addr(one)));
    assert_eq!(m.read_cell(got), 0);
    assert_eq!(m.call_shared(&y, 2, Value::Unit), Value::Int(0));
}

#[test]
fn mutable() {
    // A single exclusive-access method: the metadata is the inline function
    // pointer, and mutation lands in the right cell.
    let mut m = Machine::new();
    let mutate = m.register_fn(MethodBody::SetCell);
    let iface = RuntimeInterface { iface: 1, defaults: vec![None] };
    let for_int = ConcreteImpl { concrete: 1, overrides: vec![Some(mutate)] };

    let x = m.alloc_cell(10);
    let mut z = m.erase_exclusive(&iface, &for_int, x, CapabilityVariant::Plain);
    m.call_exclusive(&mut z, 0, Value::Int(25));
    assert_eq!(m.read_cell(x), 25);
    let y = m.alloc_cell(30);
    z = m.erase_exclusive(&iface, &for_int, y, CapabilityVariant::Plain);
    m.call_exclusive(&mut z, 0, Value::Int(35));
    assert_eq!(m.read_cell(y), 35);
}

#[test]
fn single_method_metadata_is_inline_function_pointer() {
    // One method: the metadata is the function pointer itself and no table
    // is allocated.
    let mut m = Machine::new();
    let mutate = m.register_fn(MethodBody::SetCell);
    let iface = RuntimeInterface { iface: 1, defaults: vec![None] };
    let imp = ConcreteImpl { concrete: 1, overrides: vec![Some(mutate)] };
    let x = m.alloc_cell(0);
    let r = m.erase_shared(&iface, &imp, x, CapabilityVariant::Plain);
    assert_eq!(r.inner.meta, Meta::InlineFn(mutate));
    assert_eq!(m.tables.len(), 0);
}

#[test]
fn empty_interface_metadata_is_trivial() {
    // Zero methods: still a metadata value, trivially, and no table.
    let mut m = Machine::new();
    let iface = RuntimeInterface { iface: 1, defaults: vec![] };
    let imp = ConcreteImpl { concrete: 1, overrides: vec![] };
    let x = m.alloc_cell(0);
    let r = m.erase_shared(&iface, &imp, x, CapabilityVariant::Plain);
    assert_eq!(r.inner.meta, Meta::UnitVtable);
    assert_eq!(m.tables.len(), 0);
}

#[test]
fn same_concrete_type_shares_table_instance() {
    // Two or more methods: references built from different instances of the
    // same concrete type carry pointer-identical metadata, and the table is
    // allocated exactly once.
    let mut m = Machine::new();
    let get = m.register_fn(MethodBody::GetCell);
    let set = m.register_fn(MethodBody::SetCell);
    let iface = RuntimeInterface { iface: 1, defaults: vec![None, None] };
    let imp = ConcreteImpl { concrete: 1, overrides: vec![Some(get), Some(set)] };
    let other = ConcreteImpl { concrete: 2, overrides: vec![Some(get), Some(set)] };

    let a = m.alloc_cell(1);
    let b = m.alloc_cell(2);
    let r1 = m.erase_shared(&iface, &imp, a, CapabilityVariant::Plain);
    let r2 = m.erase_shared(&iface, &imp, b, CapabilityVariant::Plain);
    assert_eq!(r1.inner.meta, r2.inner.meta);
    assert_eq!(m.tables.len(), 1);
    // A different concrete type gets a table of its own.
    let r3 = m.erase_shared(&iface, &other, b, CapabilityVariant::Plain);
    assert_ne!(r3.inner.meta, r1.inner.meta);
    assert_eq!(m.tables.len(), 2);
}

#[test]
fn counter_cells_stay_independent() {
    // Counter: get(&self) and set(&self, value) over mutable integer cells.
    // Two erased references to two distinct cells must not contaminate each
    // other.
    let mut m = Machine::new();
    let get = m.register_fn(MethodBody::GetCell);
    let set = m.register_fn(MethodBody::SetCell);
    let counter = RuntimeInterface { iface: 1, defaults: vec![None, None] };
    let imp = ConcreteImpl { concrete: 1, overrides: vec![Some(get), Some(set)] };

    let cell_a = m.alloc_cell(0);
    let cell_b = m.alloc_cell(0);
    let ra = m.erase_shared(&counter, &imp, cell_a, CapabilityVariant::Plain);
    let rb = m.erase_shared(&counter, &imp, cell_b, CapabilityVariant::Plain);
    m.call_shared(&ra, 1, Value::Int(10));
    m.call_shared(&rb, 1, Value::Int(20));
    assert_eq!(m.call_shared(&ra, 0, Value::Unit), Value::Int(10));
    assert_eq!(m.call_shared(&rb, 0, Value::Unit), Value::Int(20));
}

#[test]
fn pick_returns_same_address_as_direct_call() {
    // A method returning a reference derived from an argument reference
    // must, through the erasure path, return the exact same address as
    // calling the concrete method directly.
    let mut m = Machine::new();
    let pick = m.register_fn(MethodBody::EchoArg);
    let iface = RuntimeInterface { iface: 1, defaults: vec![None] };
    let imp = ConcreteImpl { concrete: 1, overrides: vec![Some(pick)] };

    let obj = m.alloc_cell(5);
    let arg = m.alloc_cell(77);
    let r = m.erase_shared(&iface, &imp, obj, CapabilityVariant::Plain);
    let through_erased = m.call_shared(&r, 0, Value::Addr(arg));
    let direct = m.call_direct(&iface, &imp, 0, obj, Value::Addr(arg));
    assert_eq!(through_erased, direct);
    assert_eq!(through_erased, Value::Addr(arg));
}

#[test]
fn dispatch_matches_direct_calls() {
    // The round trip on plain values: each method called through the erased
    // reference and directly on an identical twin object gives the same
    // result and the same cell afterwards.
    let mut m = Machine::new();
    let read = m.register_fn(MethodBody::SelfPlus(3));
    let write = m.register_fn(MethodBody::SetCell);
    let iface = RuntimeInterface { iface: 1, defaults: vec![None, None] };
    let imp = ConcreteImpl { concrete: 1, overrides: vec![Some(read), Some(write)] };

    let a = m.alloc_cell(41);
    let twin = m.alloc_cell(41);
    let r = m.erase_shared(&iface, &imp, a, CapabilityVariant::Plain);

    let through_erased = m.call_shared(&r, 0, Value::Unit);
    let direct = m.call_direct(&iface, &imp, 0, twin, Value::Unit);
    assert_eq!(through_erased, direct);
    assert_eq!(through_erased, Value::Int(44));

    let through_erased = m.call_shared(&r, 1, Value::Int(9));
    let direct = m.call_direct(&iface, &imp, 1, twin, Value::Int(9));
    assert_eq!(through_erased, direct);
    assert_eq!(m.read_cell(a), m.read_cell(twin));
    assert_eq!(m.read_cell(a), 9);
}

#[test]
fn default_method_resolution_both_layouts() {
    // Default bodies resolve identically under the inline and the table
    // layout: the override wins when present, the default otherwise.
    let mut m = Machine::new();
    let dflt = m.register_fn(MethodBody::ConstInt(7));
    let over = m.register_fn(MethodBody::ConstInt(8));

    // Inline layout: one method.
    let one = RuntimeInterface { iface: 1, defaults: vec![Some(dflt)] };
    let inherits = ConcreteImpl { concrete: 1, overrides: vec![None] };
    let overrides = ConcreteImpl { concrete: 2, overrides: vec![Some(over)] };
    let x = m.alloc_cell(0);
    let r = m.erase_shared(&one, &inherits, x, CapabilityVariant::Plain);
    assert_eq!(r.inner.meta, Meta::InlineFn(dflt));
    assert_eq!(m.call_shared(&r, 0, Value::Unit), Value::Int(7));
    let r = m.erase_shared(&one, &overrides, x, CapabilityVariant::Plain);
    assert_eq!(r.inner.meta, Meta::InlineFn(over));
    assert_eq!(m.call_shared(&r, 0, Value::Unit), Value::Int(8));

    // Struct layout: two methods, same resolution per entry.
    let get = m.register_fn(MethodBody::GetCell);
    let two = RuntimeInterface { iface: 2, defaults: vec![None, Some(dflt)] };
    let inherits2 = ConcreteImpl { concrete: 3, overrides: vec![Some(get), None] };
    let overrides2 = ConcreteImpl { concrete: 4, overrides: vec![Some(get), Some(over)] };
    let r = m.erase_shared(&two, &inherits2, x, CapabilityVariant::Plain);
    assert_eq!(m.call_shared(&r, 1, Value::Unit), Value::Int(7));
    let r = m.erase_shared(&two, &overrides2, x, CapabilityVariant::Plain);
    assert_eq!(m.call_shared(&r, 1, Value::Unit), Value::Int(8));
}

#[test]
fn bump_through_sequential_reborrows() {
    // Mutator: one exclusive-access method bump(&mut self, by). Reborrowing
    // the exclusive erased reference into two sequential shorter-lived
    // exclusive views and bumping once through each accumulates both
    // increments in order.
    let mut m = Machine::new();
    let bump = m.register_fn(MethodBody::BumpCell);
    let mutator = RuntimeInterface { iface: 1, defaults: vec![None] };
    let imp = ConcreteImpl { concrete: 1, overrides: vec![Some(bump)] };

    let x = m.alloc_cell(1);
    let mut z = m.erase_exclusive(&mutator, &imp, x, CapabilityVariant::Plain);
    {
        let mut view = z.as_mut();
        m.call_exclusive(&mut view, 0, Value::Int(5));
    }
    assert_eq!(m.read_cell(x), 6);
    {
        let mut view = z.as_mut();
        m.call_exclusive(&mut view, 0, Value::Int(7));
    }
    assert_eq!(m.read_cell(x), 13);
    // The original reference is usable again after the views are gone.
    m.call_exclusive(&mut z, 0, Value::Int(1));
    assert_eq!(m.read_cell(x), 14);
}
