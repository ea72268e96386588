//! Syscall-dispatch and process-control core of a minimal single-hart
//! kernel, modelled over an explicit machine state.
//!
//! The crate verifies the logic of the four process-control syscalls
//! (`exit`, `yield`, `get_time`, `trace`), the per-task syscall-invocation
//! counting done by the dispatcher, and the raw byte peek/poke debug
//! facility. Hardware concerns (the trap instruction, the hardware clock,
//! real physical memory) are modelled as plain state held in a
//! [`kernel::Kernel`] value: memory is a sparse byte map over machine-word
//! addresses, the time source is a microsecond counter that a harness
//! advances.

pub mod counts;
pub mod dispatch;
pub mod kernel;
pub mod memory;
pub mod process;
pub mod time;
pub mod user;
