//! The locking callback that libcrypto before 1.1.0 needs from a threaded program.
//!
//! libcrypto calls it with a mode and a lock number; each lock is a mutex whose guard the
//! program keeps in a table while the lock is held.

use vstd::prelude::*;
use libc::c_int;
use crate::ffi::CRYPTO_LOCK;

verus! {

/// What the locking callback does for one call.
#[derive(Clone, Copy, Debug, PartialEq, Eq, Structural)]
pub enum LockStep {
    /// Take the lock and keep its guard.
    Acquire,
    /// Drop the guard that is kept for the lock.
    Release,
    /// libcrypto asked to release a lock whose guard is not kept: report it and abort.
    ReleaseUnheld,
}

/// The step for a call with `mode`, on a lock whose guard is kept exactly when `held`:
/// the lock is taken when `mode` has the `CRYPTO_LOCK` bit, and otherwise released,
/// which is a fault when it is not held.
pub fn lock_step(mode: c_int, held: bool) -> (res: LockStep)
    ensures
        mode & CRYPTO_LOCK != 0 ==> res == LockStep::Acquire,
        mode & CRYPTO_LOCK == 0 && held ==> res == LockStep::Release,
        mode & CRYPTO_LOCK == 0 && !held ==> res == LockStep::ReleaseUnheld,
{
    if mode & CRYPTO_LOCK != 0 {
        LockStep::Acquire
    } else if held {
        LockStep::Release
    } else {
        LockStep::ReleaseUnheld
    }
}

} // verus!
