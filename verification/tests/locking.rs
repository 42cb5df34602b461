use openssl::ffi::CRYPTO_LOCK;
use openssl::locking::{lock_step, LockStep};

#[test]
fn lock_mode_takes_the_lock() {
    assert_eq!(CRYPTO_LOCK, 1);
    assert_eq!(lock_step(CRYPTO_LOCK, false), LockStep::Acquire);
    assert_eq!(lock_step(CRYPTO_LOCK, true), LockStep::Acquire);
    // CRYPTO_LOCK | CRYPTO_READ, as libcrypto passes it for a read lock
    assert_eq!(lock_step(1 | 4, false), LockStep::Acquire);
}

#[test]
fn unlock_mode_releases_a_held_lock() {
    // CRYPTO_UNLOCK | CRYPTO_WRITE
    assert_eq!(lock_step(2 | 8, true), LockStep::Release);
    assert_eq!(lock_step(2, true), LockStep::Release);
}

#[test]
fn unlock_of_an_unheld_lock_is_a_fault() {
    assert_eq!(lock_step(2, false), LockStep::ReleaseUnheld);
    assert_eq!(lock_step(0, false), LockStep::ReleaseUnheld);
}
