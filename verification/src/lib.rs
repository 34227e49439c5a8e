//! A minimal, allocation-free dynamic-dispatch mechanism, verified.
//!
//! The crate has two halves. The compilation pipeline reads an interface
//! definition (an ordered list of method signatures, already parsed and
//! normalized) and derives a dispatch-table layout, erased method signatures
//! and forwarding glue for it. The runtime half models the wide references
//! that generated code hands out: a data pointer paired with a metadata word
//! that is either a single inline function pointer or a pointer to a
//! statically allocated table.

pub mod ast;
pub mod diag;
pub mod erase;
pub mod layout;
pub mod analyze;
pub mod caps;
pub mod emit;
pub mod runtime;
pub mod machine;
