//! The three accesses through which the rings touch a word that the kernel shares.
//!
//! A cursor that the other side owns is read with `io_uring_smp_load_acquire`, so that the
//! entries published before it are visible too. A cursor of this side is published with
//! `io_uring_smp_store_release`, so that the entries written before it are visible to the
//! reader that observes it. `io_uring_read_once` is the plain read, for the paths on which the
//! kernel only moves a cursor after it has observed a later write of this side.
//!
//! Nothing is known of a value that was loaded: the kernel may have moved it at any time.
//! The functions that decide on such a value take it as an argument.
use std::sync::atomic::AtomicU16;
use std::sync::atomic::AtomicU32;
use std::sync::atomic::Ordering;
use vstd::prelude::*;

verus! {

/// Reads a shared word without ordering it against other memory.
pub fn io_uring_read_once(word: &AtomicU32) -> u32 {
    word.load(Ordering::Relaxed)
}

/// Reads a cursor of the other side; what was written before its release is visible after.
pub fn io_uring_smp_load_acquire(word: &AtomicU32) -> u32 {
    word.load(Ordering::Acquire)
}

/// Publishes a cursor of this side; what was written before is visible to whoever acquires it.
pub fn io_uring_smp_store_release(word: &AtomicU32, value: u32) {
    word.store(value, Ordering::Release)
}

/// Writes the tail of a buffer ring without publishing it.
pub fn buf_ring_write_once(word: &AtomicU16, value: u16) {
    word.store(value, Ordering::Relaxed)
}

/// Publishes the tail of a buffer ring.
pub fn buf_ring_store_release(word: &AtomicU16, value: u16) {
    word.store(value, Ordering::Release)
}

} // verus!
