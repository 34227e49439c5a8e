//! The layout selector.
//!
//! The dispatch-table layout of an interface is a pure function of its
//! method count, decided once per interface and stable for every concrete
//! type that implements it.

use vstd::prelude::*;

verus! {

/// How an interface's dispatch table is represented.
#[derive(Clone, Copy, Debug, PartialEq, Eq, Structural)]
pub enum TableLayout {
    /// At most one method: the table degenerates to the single method's
    /// function pointer, stored directly as the wide reference's metadata.
    Inline,
    /// Two or more methods: a record of function pointers, allocated once
    /// per (interface, concrete type) pair with static lifetime; the
    /// metadata is a pointer to it.
    Struct,
}

/// The layout an interface with `method_count` methods gets.
pub open spec fn layout_for(method_count: nat) -> TableLayout {
    if method_count <= 1 {
        TableLayout::Inline
    } else {
        TableLayout::Struct
    }
}

/// Decides the dispatch-table layout from the method count alone.
pub fn select_layout(method_count: usize) -> (r: TableLayout)
    ensures
        r == layout_for(method_count as nat),
{
    if method_count <= 1 {
        TableLayout::Inline
    } else {
        TableLayout::Struct
    }
}

} // verus!
