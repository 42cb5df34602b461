//! Memory BIOs: the buffers through which libcrypto reads input and writes output.

use vstd::prelude::*;
use libc::c_int;

verus! {

/// The length under which a borrowed buffer of `len` bytes is lent to libcrypto as a
/// read-only memory BIO; libcrypto takes it as a C `int`, so the buffer must fit in one.
pub fn mem_buf_len(len: usize) -> (res: c_int)
    requires
        len <= c_int::MAX,
    ensures
        res == len,
{
    len as c_int
}

} // verus!
