//! A server-plugin shim library: the host process discovers the plugin
//! through a named-interface factory and then calls it through a fixed
//! virtual dispatch table.
//!
//! This crate holds the decision logic of that protocol: which requested
//! interface name is accepted and with which status code, the exact order
//! and count of the dispatch-table slots, the value each operation returns,
//! and the bytes of the plugin description string. The raw FFI boundary
//! (calling conventions, pointers, process-wide statics) lives outside the
//! verified library and consults it for every decision.

pub mod description;
pub mod factory;
pub mod vtable;
