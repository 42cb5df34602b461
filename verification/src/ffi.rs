//! Constants of libcrypto's C interface: the flags of its CMS routines (`cms.h`) and the
//! lock mode bit of its locking callback (`crypto.h`).

use vstd::prelude::*;
use libc::{c_int, c_uint};

verus! {

pub const CMS_TEXT: c_uint = 0x1;

pub const CMS_NOCERTS: c_uint = 0x2;

pub const CMS_NO_CONTENT_VERIFY: c_uint = 0x4;

pub const CMS_NO_ATTR_VERIFY: c_uint = 0x8;

pub const CMS_NOSIGS: c_uint = CMS_NO_CONTENT_VERIFY | CMS_NO_ATTR_VERIFY;

pub const CMS_NOINTERN: c_uint = 0x10;

pub const CMS_NO_SIGNER_CERT_VERIFY: c_uint = 0x20;

pub const CMS_NOVERIFY: c_uint = 0x20;

pub const CMS_DETACHED: c_uint = 0x40;

pub const CMS_BINARY: c_uint = 0x80;

pub const CMS_NOATTR: c_uint = 0x100;

pub const CMS_NOSMIMECAP: c_uint = 0x200;

pub const CMS_NOOLDMIMETYPE: c_uint = 0x400;

pub const CMS_CRLFEOL: c_uint = 0x800;

pub const CMS_STREAM: c_uint = 0x1000;

pub const CMS_NOCRL: c_uint = 0x2000;

pub const CMS_PARTIAL: c_uint = 0x4000;

pub const CMS_REUSE_DIGEST: c_uint = 0x8000;

pub const CMS_USE_KEYID: c_uint = 0x10000;

pub const CMS_DEBUG_DECRYPT: c_uint = 0x20000;

pub const CMS_KEY_PARAM: c_uint = 0x40000;

pub const CMS_ASCIICRLF: c_uint = 0x80000;

/// The bit of a locking callback's `mode` that asks for the lock to be taken (`crypto.h`).
pub const CRYPTO_LOCK: c_int = 1;

} // verus!
