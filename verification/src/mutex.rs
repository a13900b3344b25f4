//! An abstraction over a mutex lock, together with the laws every
//! implementation of it obeys.

use vstd::prelude::*;

verus! {

/// Why a `lock` call could not grant access to the guarded value.
#[derive(Clone, Copy, Debug, PartialEq, Eq, Structural)]
pub enum LockError {
    /// A previous holder of the lock terminated abnormally while it held the
    /// lock. The guarded value is gone and the lock can never be acquired
    /// again; the state does not heal.
    Poisoned,
}

/// An abstraction over a mutex lock.
///
/// Any type that implements this trait can be used as a mutex for sharing a
/// bus, or any other exclusively owned resource, among several independent
/// users. An instance owns the guarded value outright: it is created once,
/// around the value, and from then on the value is reached only through
/// `lock`, which grants exclusive, scoped access for the duration of a single
/// operation.
///
/// The one correctness property every implementation must provide is mutual
/// exclusion: at most one operation has access to the guarded value at any
/// moment. Here that exclusion is carried by the exclusive borrow that `lock`
/// takes, so an implementation is free to back it with whatever platform
/// primitive suits the target: an operating-system lock on a hosted target,
/// or an interrupt-free section on a bare-metal core.
///
/// The abstraction promises mutual exclusion only. It orders no waiters,
/// offers no timeout, and does not support recursive acquisition: calling
/// `lock` again from inside the operation is ruled out by the exclusive
/// borrow itself. Distinct instances are independent; locking one never
/// affects another.
pub trait BusMutex<T>: Sized {
    /// Well-formedness of the instance. `create` establishes it and every
    /// `lock` call preserves it.
    spec fn inv(self) -> bool;

    /// The guarded value the instance currently owns. Meaningful only while
    /// `can_acquire` holds; after a poisoning the value is gone.
    spec fn value(self) -> T;

    /// Whether a `lock` call acquires access. An implementation whose
    /// acquisition cannot fail keeps this `true` forever; one that can be
    /// poisoned turns it `false`, for good, when a holder terminates
    /// abnormally.
    spec fn can_acquire(self) -> bool;

    /// Create a new instance of this mutex type containing the value `v`.
    ///
    /// Construction never fails and requires no allocation of its own; the
    /// instance owns `v` from here on.
    fn create(v: T) -> (m: Self)
        ensures
            m.inv(),
            m.can_acquire(),
            m.value() == v,
    ;

    /// Lock the mutex for the duration of the operation `f`.
    ///
    /// On success the operation runs exactly once: it receives the guarded
    /// value, the first component of what it hands back becomes the new
    /// guarded value, and the second component is returned as `Ok`. If
    /// acquisition fails the operation does not run at all, the guarded value
    /// is untouched, and the call reports the failure instead of silently
    /// skipping the operation.
    fn lock<R, F: FnOnce(T) -> (T, R)>(&mut self, f: F) -> (r: Result<R, LockError>)
        requires
            old(self).inv(),
            old(self).can_acquire() ==> call_requires(f, (old(self).value(),)),
        ensures
            final(self).inv(),
            final(self).can_acquire() == old(self).can_acquire(),
            r is Ok <==> old(self).can_acquire(),
            r is Err ==> *final(self) == *old(self),
            r is Ok ==> call_ensures(f, (old(self).value(),), (final(self).value(), r->Ok_0)),
    ;
}

/// Law: round trip through construction. A lock built over `v` hands exactly
/// `v` to its first operation, whatever the implementation.
///
/// The first operation reads the value back unchanged, and the result is that
/// very value: construction loses nothing on the way in.
pub fn first_lock_observes_creation<T: Copy, M: BusMutex<T>>(v: T) -> (r: Option<T>)
    ensures
        r == Some(v),
{
    let mut m = M::create(v);
    let got = m.lock(
        (|t: T| -> (p: (T, T))
            ensures
                p.0 == t && p.1 == t,
            { (t, t) }),
    );
    match got {
        Ok(x) => Some(x),
        Err(_) => None,
    }
}

/// Law: sequential consistency of non-overlapping `lock` calls. Of two
/// back-to-back operations on one instance, the second observes exactly the
/// value the first left behind.
///
/// The first operation replaces the guarded value with `w`; the second reads
/// the value it is given. Whenever acquisition succeeds, what the second
/// operation saw is `w` and nothing else.
pub fn second_lock_observes_first<T: Copy, M: BusMutex<T>>(m: &mut M, w: T) -> (r: Option<T>)
    requires
        old(m).inv(),
    ensures
        final(m).inv(),
        final(m).can_acquire() == old(m).can_acquire(),
        old(m).can_acquire() ==> r == Some(w) && final(m).value() == w,
        !old(m).can_acquire() ==> r is None && final(m).value() == old(m).value(),
{
    let _set = m.lock(
        (|_t: T| -> (p: (T, ()))
            ensures
                p.0 == w,
            { (w, ()) }),
    );
    let second = m.lock(
        (|t: T| -> (p: (T, T))
            ensures
                p.0 == t && p.1 == t,
            { (t, t) }),
    );
    match second {
        Ok(x) => Some(x),
        Err(_) => None,
    }
}

} // verus!
