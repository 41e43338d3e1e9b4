//! What depends on the host: where the caller's memory lies, and the order of its bytes.
use vstd::prelude::*;

verus! {

/// The address of `value`, from `core::ptr::from_ref`, widened to 64 bits.
///
/// Nothing is claimed of the number: where a value lives is for the allocator and the
/// stack to decide, and differs from run to run.
#[verifier::external_body]
pub(crate) fn address_of<T>(value: &T) -> (addr: u64) {
    core::ptr::from_ref(value) as usize as u64
}

/// The address of the first element of `values`, from `<[T]>::as_ptr`, widened to 64 bits.
///
/// Nothing is claimed of the number, for the same reason.
#[verifier::external_body]
pub(crate) fn slice_address<T>(values: &[T]) -> (addr: u64) {
    values.as_ptr() as usize as u64
}

/// Swaps the four bytes of `x` end for end.
pub open spec fn swap_bytes_u32(x: u32) -> u32 {
    ((x & 0xff) << 24) | ((x & 0xff00) << 8) | ((x >> 8) & 0xff00) | (x >> 24)
}

/// `x` in little-endian byte order, from `u32::to_le`.
///
/// The standard library documents it as the identity on a little-endian target and as a
/// byte swap on a big-endian one. Which of the two the target is, is not stated here.
#[verifier::external_body]
pub(crate) fn to_le_u32(x: u32) -> (le: u32)
    ensures
        le == x || le == swap_bytes_u32(x),
{
    x.to_le()
}

} // verus!
