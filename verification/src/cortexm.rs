//! The interrupt-free reference implementation of [`BusMutex`] for
//! single-core Cortex-M targets.

use vstd::prelude::*;
use crate::mutex::{BusMutex, LockError};

verus! {

/// Runs `f` over `t` inside a Cortex-M critical section and hands back what
/// `f` produced.
///
/// Relies on `cortex_m::interrupt::free`: it masks all maskable interrupts on
/// the current core, runs the closure it is given exactly once, restores the
/// previous interrupt mask on exit (it does not force interrupts on), and
/// returns the closure's result. On any target other than Cortex-M the
/// underlying function panics without running the closure, so this lock is
/// usable on its own architecture family only.
#[verifier::external_body]
fn cortexm_free_apply<T, R, F: FnOnce(T) -> (T, R)>(f: F, t: T) -> (r: (T, R))
    requires
        call_requires(f, (t,)),
    ensures
        call_ensures(f, (t,), r),
{
    cortex_m::interrupt::free(|_| f(t))
}

/// A lock for single-core Cortex-M targets, backed by an interrupt-free
/// section.
///
/// `create` stores the value directly, with no allocation, so an instance
/// suits static placement. `lock` never blocks and never fails: it masks all
/// maskable interrupts on the calling core, runs the operation, and restores
/// the interrupt mask that was in force before — so nothing else can run on
/// the core while the operation has the value. The operation should be short:
/// its whole duration is added to the core's worst-case interrupt latency.
pub struct CortexMMutex<T> {
    /// The guarded value. It leaves the slot only for the duration of a
    /// `lock` call, inside the critical section.
    slot: Option<T>,
}

impl<T> BusMutex<T> for CortexMMutex<T> {
    closed spec fn inv(self) -> bool {
        self.slot is Some
    }

    closed spec fn value(self) -> T {
        self.slot->0
    }

    closed spec fn can_acquire(self) -> bool {
        true
    }

    fn create(v: T) -> (m: Self) {
        CortexMMutex { slot: Some(v) }
    }

    fn lock<R, F: FnOnce(T) -> (T, R)>(&mut self, f: F) -> (r: Result<R, LockError>) {
        let t = self.slot.take().unwrap();
        let (t2, res) = cortexm_free_apply(f, t);
        self.slot = Some(t2);
        Ok(res)
    }
}

} // verus!
