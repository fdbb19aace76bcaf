use vstd::prelude::*;

verus! {

/// The field of a 64-bit register image that starts at bit `shift` and that
/// `mask` (right-aligned) covers.
pub open spec fn field64(v: u64, shift: u64, mask: u64) -> u64 {
    (v >> shift) & mask
}

/// The field of a 32-bit register image that starts at bit `shift` and that
/// `mask` (right-aligned) covers.
pub open spec fn field32(v: u32, shift: u32, mask: u32) -> u32 {
    (v >> shift) & mask
}

} // verus!
