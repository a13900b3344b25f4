//! The thread-blocking reference implementation of [`BusMutex`] for hosted
//! environments.

use vstd::prelude::*;
use crate::mutex::{BusMutex, LockError};

verus! {

/// A lock for hosted, multi-threaded environments.
///
/// Exclusion is carried by the exclusive borrow that [`BusMutex::lock`]
/// takes: the borrow checker plays the role the operating-system lock plays
/// at runtime, so no thread can reach the guarded value while another holds
/// it. What remains observable of the platform primitive is its poisoning
/// discipline, and this type keeps it exactly: the guarded value is parked in
/// [`Option`] storage and is out of the slot for the duration of the
/// operation, so a holder that terminates abnormally mid-operation leaves the
/// slot empty for good. Every later acquisition then fails with
/// [`LockError::Poisoned`] rather than handing out a value the failed holder
/// may have left inconsistent.
pub struct HostMutex<T> {
    /// The guarded value, present whenever no operation holds it. `None` is
    /// the poisoned state: a holder terminated abnormally while the value was
    /// out, and it never came back.
    slot: Option<T>,
}

impl<T> HostMutex<T> {
    /// Whether a previous holder terminated abnormally while it held the
    /// lock. Once poisoned, an instance stays poisoned.
    pub fn is_poisoned(&self) -> (r: bool)
        ensures
            r == !self.can_acquire(),
    {
        self.slot.is_none()
    }

    /// Drive the instance into the state an abnormally terminated holder
    /// leaves behind: the guarded value is dropped and every later `lock`
    /// call fails with [`LockError::Poisoned`].
    ///
    /// This makes the poisoned state reachable on demand, for callers that
    /// must retire an instance or exercise their handling of acquisition
    /// failure.
    pub fn poison(&mut self)
        ensures
            final(self).inv(),
            !final(self).can_acquire(),
    {
        self.slot = None;
    }
}

impl<T> BusMutex<T> for HostMutex<T> {
    closed spec fn inv(self) -> bool {
        true
    }

    closed spec fn value(self) -> T {
        self.slot->0
    }

    closed spec fn can_acquire(self) -> bool {
        self.slot is Some
    }

    fn create(v: T) -> (m: Self) {
        HostMutex { slot: Some(v) }
    }

    fn lock<R, F: FnOnce(T) -> (T, R)>(&mut self, f: F) -> (r: Result<R, LockError>) {
        match self.slot.take() {
            None => Err(LockError::Poisoned),
            Some(t) => {
                let (t2, res) = f(t);
                self.slot = Some(t2);
                Ok(res)
            },
        }
    }
}

} // verus!
