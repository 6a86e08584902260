//! Core logic of a node: the in-memory buffer for blocks that arrive ahead of the block store, the
//! decisions taken around a virtual machine, and the `debug` namespace of its API.
//!
//! - [`block`], [`buffer`], [`buffered`]: blocks, the buffer for pending blocks, and the block
//!   store with such a buffer; [`missing`] enumerates the numbers that a range lacks.
//! - [`history`]: what holds of a buffered store over its whole life.
//! - [`vm_utils`]: the execution of a transaction, and the environment for it.
//! - [`debug`], [`trace_transaction`], [`trace_call`]: call traces.
pub mod block;
pub mod buffer;
pub mod buffered;
pub mod debug;
pub mod decimal;
pub mod history;
pub mod missing;
mod ordered;
pub mod primitives;
pub mod trace_call;
pub mod trace_transaction;
pub mod vm_utils;
