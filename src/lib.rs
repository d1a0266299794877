//! Lowering of the built-in list operations into calls of a layout-agnostic
//! runtime library: element layouts, the boundary ABI of list values, the
//! per-layout callback wrappers, loop shapes and the per-operation builders.
pub mod abi;
pub mod build_list;
pub mod env;
pub mod ir;
pub mod layout;
pub mod loops;
