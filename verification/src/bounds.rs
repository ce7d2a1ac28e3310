//! The bounds oracle: the single policy deciding whether a prospective
//! access of `len` bytes starting at offset `base` stays inside a window
//! that ends at `end`, plus the big-endian field read shared by the header
//! views.

use vstd::prelude::*;

verus! {

/// An access of `len` bytes starting at `base` is valid iff it ends at or
/// before `end`. Every accessor of this crate consults this policy strictly
/// before touching any byte.
pub open spec fn access_ok(base: int, len: int, end: int) -> bool {
    base + len <= end
}

/// Runtime form of the bounds oracle, written so that the sum cannot
/// overflow.
pub fn check_access(base: usize, len: usize, end: usize) -> (ok: bool)
    ensures
        ok == access_ok(base as int, len as int, end as int),
{
    len <= end && base <= end - len
}

/// The host-order value of a 16-bit big-endian field whose wire bytes are
/// `hi` then `lo`.
pub open spec fn be16(hi: u8, lo: u8) -> int {
    hi * 256 + lo
}

/// Reads a 16-bit big-endian field from its two wire bytes.
pub fn read_be16(hi: u8, lo: u8) -> (v: u16)
    ensures
        v == be16(hi, lo),
{
    (hi as u16) * 256 + (lo as u16)
}

} // verus!
