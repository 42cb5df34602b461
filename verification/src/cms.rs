//! S/MIME through CMS.
//!
//! CMS (PKCS#7) is an encryption standard for signing and encrypting data with X.509
//! certificates. libcrypto does the cryptography; this module holds what the library
//! decides around those calls: the option flags handed to them, and what each operation
//! returns for what libcrypto reported.

use vstd::prelude::*;
use libc::{c_int, c_uint, c_long};
use crate::ffi::{
    CMS_ASCIICRLF, CMS_BINARY, CMS_CRLFEOL, CMS_DEBUG_DECRYPT, CMS_DETACHED, CMS_KEY_PARAM,
    CMS_NOATTR, CMS_NOCERTS, CMS_NOCRL, CMS_NOINTERN, CMS_NOOLDMIMETYPE, CMS_NOSIGS,
    CMS_NOSMIMECAP, CMS_NOVERIFY, CMS_NO_ATTR_VERIFY, CMS_NO_CONTENT_VERIFY,
    CMS_NO_SIGNER_CERT_VERIFY, CMS_PARTIAL, CMS_REUSE_DIGEST, CMS_STREAM, CMS_TEXT,
    CMS_USE_KEYID,
};

verus! {

/// Every bit that names a CMS option: the union of all the flags below.
pub const ALL_BITS: c_uint = CMS_TEXT | CMS_NOCERTS | CMS_NO_CONTENT_VERIFY | CMS_NO_ATTR_VERIFY
    | CMS_NOSIGS | CMS_NOINTERN | CMS_NO_SIGNER_CERT_VERIFY | CMS_NOVERIFY | CMS_DETACHED
    | CMS_BINARY | CMS_NOATTR | CMS_NOSMIMECAP | CMS_NOOLDMIMETYPE | CMS_CRLFEOL | CMS_STREAM
    | CMS_NOCRL | CMS_PARTIAL | CMS_REUSE_DIGEST | CMS_USE_KEYID | CMS_DEBUG_DECRYPT
    | CMS_KEY_PARAM | CMS_ASCIICRLF;

/// A set of option flags for the CMS routines, held as the bit mask that libcrypto reads.
///
/// Its view is that bit mask. Every value that the methods below build is well formed:
/// it sets no bit outside `ALL_BITS`.
#[derive(Clone, Copy, Debug, PartialEq, Eq, Structural, PartialOrd, Ord, Hash)]
pub struct CMSOptions {
    bits: c_uint,
}

impl View for CMSOptions {
    type V = c_uint;

    closed spec fn view(&self) -> c_uint {
        self.bits
    }
}

impl CMSOptions {
    /// No bit outside the named flags is set.
    pub open spec fn wf(self) -> bool {
        self@ & !ALL_BITS == 0
    }

    /// Two option sets with the same bits are the same value.
    pub proof fn lemma_view_injective(a: CMSOptions, b: CMSOptions)
        ensures
            a@ == b@ ==> a == b,
    {
    }

    /// Treat the content as MIME text: add or strip the text/plain header.
    pub fn TEXT() -> (res: CMSOptions)
        ensures
            res@ == CMS_TEXT,
    {
        CMSOptions { bits: CMS_TEXT }
    }

    /// Leave the signer's certificate out of a signed structure.
    pub fn CMS_NOCERTS() -> (res: CMSOptions)
        ensures
            res@ == CMS_NOCERTS,
    {
        CMSOptions { bits: CMS_NOCERTS }
    }

    /// Do not check the signature on the content.
    pub fn NO_CONTENT_VERIFY() -> (res: CMSOptions)
        ensures
            res@ == CMS_NO_CONTENT_VERIFY,
    {
        CMSOptions { bits: CMS_NO_CONTENT_VERIFY }
    }

    /// Do not check the signature on the signed attributes.
    pub fn NO_ATTR_VERIFY() -> (res: CMSOptions)
        ensures
            res@ == CMS_NO_ATTR_VERIFY,
    {
        CMSOptions { bits: CMS_NO_ATTR_VERIFY }
    }

    /// Check neither the content nor the attribute signatures.
    pub fn NOSIGS() -> (res: CMSOptions)
        ensures
            res@ == CMS_NOSIGS,
    {
        CMSOptions { bits: CMS_NOSIGS }
    }

    /// Look for the signer's certificate only among the certificates passed in.
    pub fn NOINTERN() -> (res: CMSOptions)
        ensures
            res@ == CMS_NOINTERN,
    {
        CMSOptions { bits: CMS_NOINTERN }
    }

    /// Do not verify the signer's certificate chain.
    pub fn NO_SIGNER_CERT_VERIFY() -> (res: CMSOptions)
        ensures
            res@ == CMS_NO_SIGNER_CERT_VERIFY,
    {
        CMSOptions { bits: CMS_NO_SIGNER_CERT_VERIFY }
    }

    /// Do not verify the signer's certificate chain (same bit as `NO_SIGNER_CERT_VERIFY`).
    pub fn NOVERIFY() -> (res: CMSOptions)
        ensures
            res@ == CMS_NOVERIFY,
    {
        CMSOptions { bits: CMS_NOVERIFY }
    }

    /// Leave the content out of a signed structure.
    pub fn DETACHED() -> (res: CMSOptions)
        ensures
            res@ == CMS_DETACHED,
    {
        CMSOptions { bits: CMS_DETACHED }
    }

    /// Do not translate line endings of the content.
    pub fn BINARY() -> (res: CMSOptions)
        ensures
            res@ == CMS_BINARY,
    {
        CMSOptions { bits: CMS_BINARY }
    }

    /// Add no signed attributes.
    pub fn NOATTR() -> (res: CMSOptions)
        ensures
            res@ == CMS_NOATTR,
    {
        CMSOptions { bits: CMS_NOATTR }
    }

    /// Leave out the SMIMECapabilities attribute.
    pub fn NOSMIMECAP() -> (res: CMSOptions)
        ensures
            res@ == CMS_NOSMIMECAP,
    {
        CMSOptions { bits: CMS_NOSMIMECAP }
    }

    /// Use the current S/MIME content type.
    pub fn NOOLDMIMETYPE() -> (res: CMSOptions)
        ensures
            res@ == CMS_NOOLDMIMETYPE,
    {
        CMSOptions { bits: CMS_NOOLDMIMETYPE }
    }

    /// End lines with CR LF.
    pub fn CRLFEOL() -> (res: CMSOptions)
        ensures
            res@ == CMS_CRLFEOL,
    {
        CMSOptions { bits: CMS_CRLFEOL }
    }

    /// Prepare the structure for streaming I/O.
    pub fn STREAM() -> (res: CMSOptions)
        ensures
            res@ == CMS_STREAM,
    {
        CMSOptions { bits: CMS_STREAM }
    }

    /// Leave revocation lists out.
    pub fn NOCRL() -> (res: CMSOptions)
        ensures
            res@ == CMS_NOCRL,
    {
        CMSOptions { bits: CMS_NOCRL }
    }

    /// Return a partial structure to be finished later.
    pub fn PARTIAL() -> (res: CMSOptions)
        ensures
            res@ == CMS_PARTIAL,
    {
        CMSOptions { bits: CMS_PARTIAL }
    }

    /// Reuse an existing content digest.
    pub fn REUSE_DIGEST() -> (res: CMSOptions)
        ensures
            res@ == CMS_REUSE_DIGEST,
    {
        CMSOptions { bits: CMS_REUSE_DIGEST }
    }

    /// Identify certificates by subject key identifier.
    pub fn USE_KEYID() -> (res: CMSOptions)
        ensures
            res@ == CMS_USE_KEYID,
    {
        CMSOptions { bits: CMS_USE_KEYID }
    }

    /// Report decryption failures in detail.
    pub fn DEBUG_DECRYPT() -> (res: CMSOptions)
        ensures
            res@ == CMS_DEBUG_DECRYPT,
    {
        CMSOptions { bits: CMS_DEBUG_DECRYPT }
    }

    /// Allow the key parameters to be set before the operation runs.
    pub fn KEY_PARAM() -> (res: CMSOptions)
        ensures
            res@ == CMS_KEY_PARAM,
    {
        CMSOptions { bits: CMS_KEY_PARAM }
    }

    /// Convert line endings to CR LF in text content.
    pub fn ASCIICRLF() -> (res: CMSOptions)
        ensures
            res@ == CMS_ASCIICRLF,
    {
        CMSOptions { bits: CMS_ASCIICRLF }
    }

    /// The empty set of flags.
    pub fn empty() -> (res: CMSOptions)
        ensures
            res@ == 0,
            res.wf(),
    {
        proof {
            lemma_zero_wf();
        }
        CMSOptions { bits: 0 }
    }

    /// The set of all named flags.
    pub fn all() -> (res: CMSOptions)
        ensures
            res@ == ALL_BITS,
            res.wf(),
    {
        proof {
            lemma_all_wf();
        }
        CMSOptions { bits: ALL_BITS }
    }

    /// The raw bit mask, as libcrypto reads it.
    pub fn bits(&self) -> (res: c_uint)
        ensures
            res == self@,
    {
        self.bits
    }

    /// The set with exactly the given bits, when every one of them names a flag.
    pub fn from_bits(bits: c_uint) -> (res: Option<CMSOptions>)
        ensures
            res is Some <==> bits & !ALL_BITS == 0,
            res matches Some(f) ==> f@ == bits && f.wf(),
    {
        if bits & !ALL_BITS == 0 {
            Some(CMSOptions { bits })
        } else {
            None
        }
    }

    /// The set of the given bits that name flags; the others are dropped.
    pub fn from_bits_truncate(bits: c_uint) -> (res: CMSOptions)
        ensures
            res@ == bits & ALL_BITS,
            res.wf(),
    {
        proof {
            lemma_mask_wf(bits);
        }
        CMSOptions { bits: bits & ALL_BITS }
    }

    /// No flag is set.
    pub fn is_empty(&self) -> (res: bool)
        ensures
            res == (self@ == 0),
    {
        self.bits == 0
    }

    /// Every named flag is set.
    pub fn is_all(&self) -> (res: bool)
        ensures
            res == (self@ == ALL_BITS),
    {
        self.bits == ALL_BITS
    }

    /// Every flag of `other` is set in `self`.
    pub fn contains(&self, other: CMSOptions) -> (res: bool)
        ensures
            res == (self@ & other@ == other@),
    {
        (self.bits & other.bits) == other.bits
    }

    /// Some flag is set in both.
    pub fn intersects(&self, other: CMSOptions) -> (res: bool)
        ensures
            res == (self@ & other@ != 0),
    {
        (self.bits & other.bits) != 0
    }

    /// Sets the flags of `other`.
    pub fn insert(&mut self, other: CMSOptions)
        ensures
            final(self)@ == old(self)@ | other@,
            old(self).wf() && other.wf() ==> final(self).wf(),
    {
        proof {
            lemma_wf_closed(self.bits, other.bits);
        }
        self.bits = self.bits | other.bits;
    }

    /// Clears the flags of `other`.
    pub fn remove(&mut self, other: CMSOptions)
        ensures
            final(self)@ == old(self)@ & !other@,
            old(self).wf() ==> final(self).wf(),
    {
        proof {
            lemma_wf_closed(self.bits, other.bits);
        }
        self.bits = self.bits & !other.bits;
    }

    /// Flips the flags of `other`.
    pub fn toggle(&mut self, other: CMSOptions)
        ensures
            final(self)@ == old(self)@ ^ other@,
            old(self).wf() && other.wf() ==> final(self).wf(),
    {
        proof {
            lemma_wf_closed(self.bits, other.bits);
        }
        self.bits = self.bits ^ other.bits;
    }

    /// Sets the flags of `other` when `value` holds, and clears them otherwise.
    pub fn set(&mut self, other: CMSOptions, value: bool)
        ensures
            final(self)@ == (if value { old(self)@ | other@ } else { old(self)@ & !other@ }),
            old(self).wf() && other.wf() ==> final(self).wf(),
    {
        if value {
            self.insert(other);
        } else {
            self.remove(other);
        }
    }
}

impl core::ops::BitOr for CMSOptions {
    type Output = CMSOptions;

    /// The union of two sets.
    fn bitor(self, other: CMSOptions) -> (res: CMSOptions)
        ensures
            res@ == self@ | other@,
            self.wf() && other.wf() ==> res.wf(),
    {
        proof {
            lemma_wf_closed(self.bits, other.bits);
        }
        CMSOptions { bits: self.bits | other.bits }
    }
}

impl vstd::std_specs::ops::BitOrSpecImpl for CMSOptions {
    open spec fn obeys_bitor_spec() -> bool {
        true
    }

    open spec fn bitor_req(self, rhs: CMSOptions) -> bool {
        true
    }

    closed spec fn bitor_spec(self, rhs: CMSOptions) -> CMSOptions {
        CMSOptions { bits: self.bits | rhs.bits }
    }
}

impl core::ops::BitAnd for CMSOptions {
    type Output = CMSOptions;

    /// The intersection of two sets.
    fn bitand(self, other: CMSOptions) -> (res: CMSOptions)
        ensures
            res@ == self@ & other@,
            self.wf() || other.wf() ==> res.wf(),
    {
        proof {
            lemma_wf_closed(self.bits, other.bits);
        }
        CMSOptions { bits: self.bits & other.bits }
    }
}

impl vstd::std_specs::ops::BitAndSpecImpl for CMSOptions {
    open spec fn obeys_bitand_spec() -> bool {
        true
    }

    open spec fn bitand_req(self, rhs: CMSOptions) -> bool {
        true
    }

    closed spec fn bitand_spec(self, rhs: CMSOptions) -> CMSOptions {
        CMSOptions { bits: self.bits & rhs.bits }
    }
}

impl core::ops::BitXor for CMSOptions {
    type Output = CMSOptions;

    /// The flags set in exactly one of two sets.
    fn bitxor(self, other: CMSOptions) -> (res: CMSOptions)
        ensures
            res@ == self@ ^ other@,
            self.wf() && other.wf() ==> res.wf(),
    {
        proof {
            lemma_wf_closed(self.bits, other.bits);
        }
        CMSOptions { bits: self.bits ^ other.bits }
    }
}

impl vstd::std_specs::ops::BitXorSpecImpl for CMSOptions {
    open spec fn obeys_bitxor_spec() -> bool {
        true
    }

    open spec fn bitxor_req(self, rhs: CMSOptions) -> bool {
        true
    }

    closed spec fn bitxor_spec(self, rhs: CMSOptions) -> CMSOptions {
        CMSOptions { bits: self.bits ^ rhs.bits }
    }
}

impl core::ops::Sub for CMSOptions {
    type Output = CMSOptions;

    /// The flags of `self` that are not in `other`.
    fn sub(self, other: CMSOptions) -> (res: CMSOptions)
        ensures
            res@ == self@ & !other@,
            self.wf() ==> res.wf(),
    {
        proof {
            lemma_wf_closed(self.bits, other.bits);
        }
        CMSOptions { bits: self.bits & !other.bits }
    }
}

impl vstd::std_specs::ops::SubSpecImpl for CMSOptions {
    open spec fn obeys_sub_spec() -> bool {
        true
    }

    open spec fn sub_req(self, rhs: CMSOptions) -> bool {
        true
    }

    closed spec fn sub_spec(self, rhs: CMSOptions) -> CMSOptions {
        CMSOptions { bits: self.bits & !rhs.bits }
    }
}

impl core::ops::Not for CMSOptions {
    type Output = CMSOptions;

    /// The named flags that are not in `self`.
    fn not(self) -> (res: CMSOptions)
        ensures
            res@ == !self@ & ALL_BITS,
            res.wf(),
    {
        CMSOptions::from_bits_truncate(!self.bits)
    }
}

impl vstd::std_specs::ops::NotSpecImpl for CMSOptions {
    open spec fn obeys_not_spec() -> bool {
        true
    }

    open spec fn not_req(self) -> bool {
        true
    }

    closed spec fn not_spec(self) -> CMSOptions {
        CMSOptions { bits: !self.bits & ALL_BITS }
    }
}

/// The flags that `decrypt` hands to `CMS_decrypt`: none.
pub const DECRYPT_FLAGS: c_uint = 0;

impl core::ops::BitOrAssign for CMSOptions {
    /// Adds the flags of `other`.
    fn bitor_assign(&mut self, other: CMSOptions)
        ensures
            final(self)@ == old(self)@ | other@,
            old(self).wf() && other.wf() ==> final(self).wf(),
    {
        proof {
            lemma_wf_closed(self.bits, other.bits);
        }
        self.bits = self.bits | other.bits;
    }
}

impl core::ops::BitAndAssign for CMSOptions {
    /// Keeps only the flags that are also in `other`.
    fn bitand_assign(&mut self, other: CMSOptions)
        ensures
            final(self)@ == old(self)@ & other@,
            old(self).wf() || other.wf() ==> final(self).wf(),
    {
        proof {
            lemma_wf_closed(self.bits, other.bits);
        }
        self.bits = self.bits & other.bits;
    }
}

impl core::ops::BitXorAssign for CMSOptions {
    /// Flips the flags of `other`.
    fn bitxor_assign(&mut self, other: CMSOptions)
        ensures
            final(self)@ == old(self)@ ^ other@,
            old(self).wf() && other.wf() ==> final(self).wf(),
    {
        proof {
            lemma_wf_closed(self.bits, other.bits);
        }
        self.bits = self.bits ^ other.bits;
    }
}

impl core::ops::SubAssign for CMSOptions {
    /// Drops the flags of `other`.
    fn sub_assign(&mut self, other: CMSOptions)
        ensures
            final(self)@ == old(self)@ & !other@,
            old(self).wf() ==> final(self).wf(),
    {
        proof {
            lemma_wf_closed(self.bits, other.bits);
        }
        self.bits = self.bits & !other.bits;
    }
}

/// `decrypt` never asks libcrypto to strip a text/plain MIME header: `DECRYPT_FLAGS`
/// leaves `CMS_TEXT` out, so content encrypted with `TEXT` comes back with the header
/// that libcrypto added.
pub proof fn law_decrypt_keeps_text_header()
    ensures
        DECRYPT_FLAGS & CMS_TEXT == 0,
{
    assert(DECRYPT_FLAGS & CMS_TEXT == 0) by (bit_vector);
}

/// What `decrypt` and `to_pem` return, given the status that libcrypto reported and the
/// bytes it left in the output memory BIO: on success a copy of those bytes, and on
/// failure the errors that `on_failure` collects.
pub fn output_on_success<E, F: FnOnce() -> E>(status: c_int, written: &[u8], on_failure: F) -> (res:
    Result<Vec<u8>, E>)
    requires
        status <= 0 ==> call_requires(on_failure, ()),
    ensures
        status > 0 ==> (res matches Ok(v) && v@ == written@),
        status <= 0 ==> (res matches Err(e) && call_ensures(on_failure, (), e)),
{
    match crate::cvt(status, on_failure) {
        Ok(_) => Ok(vstd::slice::slice_to_vec(written)),
        Err(e) => Err(e),
    }
}

/// What `verify` returns, given the status that `CMS_verify` reported and the content it
/// left in the output memory BIO. On success the caller's buffer `out`, where there is one,
/// holds exactly that content afterwards; on failure it is left as it was and the errors
/// that `on_failure` collects are returned.
pub fn verify_result<E, F: FnOnce() -> E>(
    status: c_int,
    written: &[u8],
    out: Option<&mut Vec<u8>>,
    on_failure: F,
) -> (res: Result<(), E>)
    requires
        status <= 0 ==> call_requires(on_failure, ()),
    ensures
        status > 0 ==> res == Ok::<(), E>(()),
        status > 0 ==> (out matches Some(o) ==> final(o)@ == written@),
        status <= 0 ==> (res matches Err(e) && call_ensures(on_failure, (), e)),
        status <= 0 ==> (out matches Some(o) ==> final(o)@ == (*o)@),
{
    match crate::cvt(status, on_failure) {
        Ok(_) => {
            if let Some(data) = out {
                data.clear();
                data.extend_from_slice(written);
                assert(data@ =~= written@);
            }
            Ok(())
        },
        Err(e) => Err(e),
    }
}

/// The buffer that `to_der` hands to `i2d_CMS_ContentInfo` once a first call has reported
/// the encoding's length `len`: `len` zero bytes.
pub fn der_buffer(len: c_int) -> (res: Vec<u8>)
    requires
        len >= 0,
    ensures
        res@ == Seq::new(len as nat, |_i: int| 0u8),
{
    let res = vec![0u8; len as usize];
    assert(res@ =~= Seq::new(len as nat, |_i: int| 0u8));
    res
}

/// The length that `from_der` hands to `d2i_CMS_ContentInfo` for an input of `len` bytes:
/// the input's length, or the largest C `long` where the input is longer.
pub fn der_input_len(len: usize) -> (res: c_long)
    ensures
        res == (if len <= c_long::MAX { len as int } else { c_long::MAX as int }),
{
    if len as u64 <= c_long::MAX as u64 {
        len as c_long
    } else {
        c_long::MAX
    }
}

/// After `insert(f)`, the set contains `f`.
pub proof fn law_insert_then_contains(s: CMSOptions, f: CMSOptions)
    ensures
        (s@ | f@) & f@ == f@,
{
    let (x, y) = (s@, f@);
    assert((x | y) & y == y) by (bit_vector);
}

/// After `remove(f)`, no flag of `f` is left: the set no longer intersects `f`.
pub proof fn law_remove_then_disjoint(s: CMSOptions, f: CMSOptions)
    ensures
        (s@ & !f@) & f@ == 0,
{
    let (x, y) = (s@, f@);
    assert((x & !y) & y == 0) by (bit_vector);
}

/// Toggling the same flags twice gives back the set one started with.
pub proof fn law_toggle_twice(s: CMSOptions, f: CMSOptions)
    ensures
        (s@ ^ f@) ^ f@ == s@,
{
    let (x, y) = (s@, f@);
    assert((x ^ y) ^ y == x) by (bit_vector);
}

/// Union and intersection do not depend on the order of their operands, nor on how
/// three sets are grouped.
pub proof fn law_union_intersection_algebra(a: CMSOptions, b: CMSOptions, c: CMSOptions)
    ensures
        a@ | b@ == b@ | a@,
        a@ & b@ == b@ & a@,
        (a@ | b@) | c@ == a@ | (b@ | c@),
        (a@ & b@) & c@ == a@ & (b@ & c@),
        a@ | a@ == a@,
        a@ & a@ == a@,
{
    let (x, y, z) = (a@, b@, c@);
    assert(x | y == y | x) by (bit_vector);
    assert(x & y == y & x) by (bit_vector);
    assert((x | y) | z == x | (y | z)) by (bit_vector);
    assert((x & y) & z == x & (y & z)) by (bit_vector);
    assert(x | x == x) by (bit_vector);
    assert(x & x == x) by (bit_vector);
}

/// The empty set is neutral for union, and every set contains it.
pub proof fn law_empty_neutral(s: CMSOptions)
    ensures
        s@ | 0 == s@,
        s@ & 0 == 0,
{
    let x = s@;
    assert(x | 0 == x) by (bit_vector);
    assert(x & 0 == 0) by (bit_vector);
}

/// `all()` contains every well-formed set, and adding flags to it changes nothing.
pub proof fn law_all_contains_every_set(s: CMSOptions)
    requires
        s.wf(),
    ensures
        ALL_BITS & s@ == s@,
        ALL_BITS | s@ == ALL_BITS,
{
    let x = s@;
    assert(x & !ALL_BITS == 0 ==> ALL_BITS & x == x) by (bit_vector);
    assert(x & !ALL_BITS == 0 ==> ALL_BITS | x == ALL_BITS) by (bit_vector);
}

/// On well-formed sets the complement `!` undoes itself, and a set and its complement
/// split `all()` between them.
pub proof fn law_complement(s: CMSOptions)
    requires
        s.wf(),
    ensures
        !(!s@ & ALL_BITS) & ALL_BITS == s@,
        s@ | (!s@ & ALL_BITS) == ALL_BITS,
        s@ & (!s@ & ALL_BITS) == 0,
{
    let x = s@;
    assert(x & !ALL_BITS == 0 ==> !(!x & ALL_BITS) & ALL_BITS == x) by (bit_vector);
    assert(x & !ALL_BITS == 0 ==> x | (!x & ALL_BITS) == ALL_BITS) by (bit_vector);
    assert(x & (!x & ALL_BITS) == 0) by (bit_vector);
}

/// A well-formed set is unchanged by masking its bits with `ALL_BITS`, and any set with
/// the same bits is that set. With the contracts of `from_bits` (whose condition is `wf`
/// itself, and whose result has the given bits) and of `from_bits_truncate` (whose result
/// has the given bits masked with `ALL_BITS`), this gives `from_bits(s.bits()) == Some(s)`
/// and `from_bits_truncate(s.bits()) == s`.
pub proof fn law_bits_round_trip(s: CMSOptions)
    requires
        s.wf(),
    ensures
        s@ & ALL_BITS == s@,
        forall|t: CMSOptions| t@ == s@ ==> t == s,
{
    let x = s@;
    assert(x & !ALL_BITS == 0 ==> x & ALL_BITS == x) by (bit_vector);
    assert forall|t: CMSOptions| t@ == s@ implies t == s by {
        CMSOptions::lemma_view_injective(t, s);
    }
}

/// `contains` is a partial order: it is reflexive (`a@ & a@ == a@`, stated in
/// `law_union_intersection_algebra`), transitive, and two sets that contain each other are
/// equal.
pub proof fn law_contains_order(a: CMSOptions, b: CMSOptions, c: CMSOptions)
    ensures
        (a@ & b@ == b@ && b@ & c@ == c@) ==> a@ & c@ == c@,
        (a@ & b@ == b@ && b@ & a@ == a@) ==> a == b,
{
    let (x, y, z) = (a@, b@, c@);
    assert((x & y == y && y & z == z) ==> x & z == z) by (bit_vector);
    assert((x & y == y && y & x == x) ==> x == y) by (bit_vector);
    CMSOptions::lemma_view_injective(a, b);
}

/// `a` contains `b` exactly when adding `b` to `a` leaves `a` as it is.
pub proof fn law_contains_iff_union_absorbs(a: CMSOptions, b: CMSOptions)
    ensures
        (a@ & b@ == b@) <==> (a@ | b@ == a@),
{
    let (x, y) = (a@, b@);
    assert((x & y == y) <==> (x | y == x)) by (bit_vector);
}

/// `a - b` and `a & b` split `a`: they share no flag and together make up `a`.
pub proof fn law_difference_intersection_split(a: CMSOptions, b: CMSOptions)
    ensures
        (a@ & !b@) | (a@ & b@) == a@,
        (a@ & !b@) & (a@ & b@) == 0,
{
    let (x, y) = (a@, b@);
    assert((x & !y) | (x & y) == x) by (bit_vector);
    assert((x & !y) & (x & y) == 0) by (bit_vector);
}

proof fn lemma_wf_closed(a: c_uint, b: c_uint)
    ensures
        a & !ALL_BITS == 0 && b & !ALL_BITS == 0 ==> (a | b) & !ALL_BITS == 0,
        a & !ALL_BITS == 0 && b & !ALL_BITS == 0 ==> (a ^ b) & !ALL_BITS == 0,
        a & !ALL_BITS == 0 || b & !ALL_BITS == 0 ==> (a & b) & !ALL_BITS == 0,
        a & !ALL_BITS == 0 ==> (a & !b) & !ALL_BITS == 0,
{
    assert(a & !ALL_BITS == 0 && b & !ALL_BITS == 0 ==> (a | b) & !ALL_BITS == 0) by (bit_vector);
    assert(a & !ALL_BITS == 0 && b & !ALL_BITS == 0 ==> (a ^ b) & !ALL_BITS == 0) by (bit_vector);
    assert(a & !ALL_BITS == 0 || b & !ALL_BITS == 0 ==> (a & b) & !ALL_BITS == 0) by (bit_vector);
    assert(a & !ALL_BITS == 0 ==> (a & !b) & !ALL_BITS == 0) by (bit_vector);
}

proof fn lemma_zero_wf()
    ensures
        0u32 & !ALL_BITS == 0,
{
    assert(0u32 & !ALL_BITS == 0) by (bit_vector);
}

proof fn lemma_all_wf()
    ensures
        ALL_BITS & !ALL_BITS == 0,
{
    assert(ALL_BITS & !ALL_BITS == 0) by (bit_vector);
}

proof fn lemma_mask_wf(bits: c_uint)
    ensures
        (bits & ALL_BITS) & !ALL_BITS == 0,
{
    assert((bits & ALL_BITS) & !ALL_BITS == 0) by (bit_vector);
}

} // verus!
