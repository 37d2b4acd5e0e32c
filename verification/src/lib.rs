//! SDK for host extensions ("plugins") in a constrained, allocator-free
//! environment: a deterministic name-hash engine, a symbol resolver that
//! works over bounded reads of externally owned byte regions, and the
//! fixed-layout callback-table ABI through which a plugin registers
//! commands with its host.

pub mod abi;
pub mod error;
pub mod ffi;
pub mod hash;
pub mod introspect;
pub mod resolver;
pub mod span;
pub mod types;
