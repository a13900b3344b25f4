//! A minimal locking abstraction for sharing one exclusively owned resource —
//! typically a communication bus — among several independent users, from
//! multi-threaded hosts down to bare-metal single-core microcontrollers.
//!
//! The heart of the crate is the [`BusMutex`] trait: construct an instance
//! around a value once, then reach the value only through [`BusMutex::lock`],
//! which grants exclusive, scoped access for the duration of one operation.
//! Three reference implementations back the trait with different platform
//! primitives, chosen at build time: [`HostMutex`] for hosted environments,
//! and [`CortexMMutex`] and [`RiscvMutex`] for two single-core embedded
//! architecture families, where exclusion comes from an interrupt-free
//! section rather than from a scheduler.

pub mod cortexm;
pub mod host;
pub mod mutex;
pub mod riscv_irq;

pub use cortexm::CortexMMutex;
pub use host::HostMutex;
pub use mutex::{BusMutex, LockError};
pub use riscv_irq::RiscvMutex;
