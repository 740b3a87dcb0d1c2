//! Guest-ABI syscall layer of a WebAssembly engine: bounds-checked guest
//! memory, the argument cursor, the `stat` record marshaller and the
//! per-syscall decisions, each with its contract.
pub mod le;
pub mod memory;
pub mod args;
pub mod stat;
pub mod syscalls;
