//! Verified core of a debugger extension that watches a process allocate
//! memory, forces fresh writable-and-executable regions to fault on first
//! execution, and captures each such region once when it does.
//!
//! The host debugging engine (breakpoints, registers, memory, process
//! handles, files) stays outside this crate: callers perform each host
//! operation and hand the results back as plain values.

pub mod instruction;
pub mod segment;
pub mod allocation;
pub mod protection;
pub mod hooks;
pub mod exception;
pub mod dump;
pub mod monitor;
pub mod value;
pub mod memory;
