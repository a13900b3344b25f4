//! The interrupt-free reference implementation of [`BusMutex`] for
//! single-core RISC-V targets.

use vstd::prelude::*;
use crate::mutex::{BusMutex, LockError};

verus! {

/// Runs `f` over `t` inside a RISC-V critical section and hands back what
/// `f` produced.
///
/// Relies on `riscv::interrupt::free`: it disables all interrupts on the
/// current hart, runs the closure it is given exactly once, restores the
/// previous interrupt-enable state on exit (it re-enables only if interrupts
/// were enabled before), and returns the closure's result. On any target
/// other than RISC-V the underlying register read panics without running the
/// closure, so this lock is usable on its own architecture family only.
#[verifier::external_body]
fn riscv_free_apply<T, R, F: FnOnce(T) -> (T, R)>(f: F, t: T) -> (r: (T, R))
    requires
        call_requires(f, (t,)),
    ensures
        call_ensures(f, (t,), r),
{
    riscv::interrupt::free(|| f(t))
}

/// A lock for single-core RISC-V targets, backed by an interrupt-free
/// section.
///
/// `create` stores the value directly, with no allocation, so an instance
/// suits static placement. `lock` never blocks and never fails: it disables
/// interrupts on the calling hart, runs the operation, and restores the
/// interrupt-enable state that was in force before — so nothing else can run
/// on the hart while the operation has the value. The operation should be
/// short: its whole duration is added to the hart's worst-case interrupt
/// latency.
pub struct RiscvMutex<T> {
    /// The guarded value. It leaves the slot only for the duration of a
    /// `lock` call, inside the critical section.
    slot: Option<T>,
}

impl<T> BusMutex<T> for RiscvMutex<T> {
    closed spec fn inv(self) -> bool {
        self.slot is Some
    }

    closed spec fn value(self) -> T {
        self.slot->0
    }

    closed spec fn can_acquire(self) -> bool {
        true
    }

    fn create(v: T) -> (m: Self) {
        RiscvMutex { slot: Some(v) }
    }

    fn lock<R, F: FnOnce(T) -> (T, R)>(&mut self, f: F) -> (r: Result<R, LockError>) {
        let t = self.slot.take().unwrap();
        let (t2, res) = riscv_free_apply(f, t);
        self.slot = Some(t2);
        Ok(res)
    }
}

} // verus!
