//! Verified parts of the OpenSSL bindings: the CMS option flags, the checks on what
//! libcrypto returns, what each CMS operation makes of those results, and the decision of
//! the locking callback that older libcrypto needs.
//!
//! libcrypto itself is reached through its C interface, outside this crate; the functions
//! here that judge a libcrypto call take what the call returned as an argument.

use vstd::prelude::*;
use libc::c_int;

pub mod bio;
pub mod cms;
pub mod ffi;
pub mod locking;

verus! {

/// Checks a status code returned by libcrypto: a positive code is a success and is handed
/// back; otherwise `on_failure` is called, once, to collect libcrypto's errors.
///
/// `on_failure` is called exactly when the status reports a failure, so the error queue
/// is left as it is after a success.
pub fn cvt<E, F: FnOnce() -> E>(r: c_int, on_failure: F) -> (res: Result<c_int, E>)
    requires
        r <= 0 ==> call_requires(on_failure, ()),
    ensures
        r > 0 ==> res == Ok::<c_int, E>(r),
        r <= 0 ==> (res matches Err(e) && call_ensures(on_failure, (), e)),
{
    if r <= 0 {
        Err(on_failure())
    } else {
        Ok(r)
    }
}

/// Checks an object handed back by libcrypto, `None` standing for a null pointer: a
/// present object is handed back; otherwise `on_failure` is called, once, to collect
/// libcrypto's errors.
pub fn cvt_p<P, E, F: FnOnce() -> E>(p: Option<P>, on_failure: F) -> (res: Result<P, E>)
    requires
        p is None ==> call_requires(on_failure, ()),
    ensures
        p matches Some(q) ==> res == Ok::<P, E>(q),
        p is None ==> (res matches Err(e) && call_ensures(on_failure, (), e)),
{
    match p {
        Some(q) => Ok(q),
        None => Err(on_failure()),
    }
}

} // verus!
