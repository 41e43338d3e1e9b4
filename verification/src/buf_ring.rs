//! The ring of provided buffers: receive buffers that the application lends to the
//! kernel, which picks one per completion and names it in the completion's flags.
//!
//! Descriptors are written at the tail without the kernel seeing them; moving the tail
//! with a release store publishes all of them at once.
use crate::barrier::buf_ring_store_release;
use crate::barrier::buf_ring_write_once;
use crate::cq::IoUringCq;
use std::sync::atomic::AtomicU16;
use vstd::prelude::*;

verus! {

/// The descriptor of one provided buffer.
#[derive(Clone, Copy, Debug, PartialEq, Eq, Structural)]
pub struct IoUringBuf {
    pub addr: u64,
    pub len: u32,
    pub bid: u16,
    pub resv: u16,
}

/// The state of a buffer ring.
pub struct BufRingView {
    pub bufs: Seq<IoUringBuf>,
    pub tail: u16,
}

impl BufRingView {
    /// The slot that a descriptor is written to, `buf_offset` slots past the tail.
    pub open spec fn slot(self, mask: i32, buf_offset: i32) -> int {
        ((self.tail as i32).wrapping_add(buf_offset) & mask) as int
    }

    /// The ring after a descriptor was written `buf_offset` slots past the tail. What the
    /// slot holds in reserve stays.
    pub open spec fn add(self, addr: u64, len: u32, bid: u16, mask: i32, buf_offset: i32) -> BufRingView {
        let at = self.slot(mask, buf_offset);
        BufRingView {
            bufs: self.bufs.update(at, IoUringBuf { addr, len, bid, resv: self.bufs[at].resv }),
            ..self
        }
    }

    /// The ring after `count` buffers were published. The tail counts at 16 bits.
    pub open spec fn advance(self, count: i32) -> BufRingView {
        BufRingView { tail: self.tail.wrapping_add(count as u16), ..self }
    }
}

/// The ring of provided buffers.
pub struct IoUringBufRing<'a> {
    ktail: &'a AtomicU16,
    bufs: Vec<IoUringBuf>,
    tail: u16,
}

impl<'a> View for IoUringBufRing<'a> {
    type V = BufRingView;

    closed spec fn view(&self) -> BufRingView {
        BufRingView { bufs: self.bufs@, tail: self.tail }
    }
}

impl<'a> IoUringBufRing<'a> {
    /// A ring over the slots `bufs`, with its tail at `tail`; `ktail` is the word through
    /// which the tail is published.
    pub fn new(ktail: &'a AtomicU16, bufs: Vec<IoUringBuf>, tail: u16) -> (ring: IoUringBufRing<'a>)
        ensures
            ring@ == (BufRingView { bufs: bufs@, tail }),
    {
        IoUringBufRing { ktail, bufs, tail }
    }

    /// The tail: how many buffers were published so far, counted at 16 bits.
    pub fn tail(&self) -> (tail: u16)
        ensures
            tail == self@.tail,
    {
        self.tail
    }

    /// The descriptor in the slot `index`, where there is such a slot.
    pub fn buf(&self, index: usize) -> (buf: Option<IoUringBuf>)
        ensures
            buf == (if index < self@.bufs.len() {
                Some(self@.bufs[index as int])
            } else {
                None
            }),
    {
        if index < self.bufs.len() {
            Some(self.bufs[index])
        } else {
            None
        }
    }
}

/// An index and a mask that is not negative give a slot from zero to the mask.
proof fn lemma_masked_slot(index: i32, mask: i32)
    requires
        0 <= mask,
    ensures
        0 <= index & mask <= mask,
{
    assert(0i32 <= mask ==> 0i32 <= index & mask && index & mask <= mask) by (bit_vector);
}

/// The mask of a buffer ring of `ring_entries` entries.
pub fn io_uring_buf_ring_mask(ring_entries: u32) -> (mask: i32)
    requires
        ring_entries >= 1,
    ensures
        mask == (ring_entries - 1) as i32,
{
    #[verifier::truncate]
    ((ring_entries - 1) as i32)
}

/// Starts a buffer ring over: the tail is zero.
pub fn io_uring_buf_ring_init(br: &mut IoUringBufRing)
    ensures
        final(br)@ == (BufRingView { tail: 0, ..old(br)@ }),
{
    br.tail = 0;
    buf_ring_write_once(br.ktail, 0);
}

/// Writes the descriptor of the buffer `bid`, of `len` bytes at `addr`, `buf_offset` slots
/// past the tail. The kernel does not see it until the tail moves.
pub fn io_uring_buf_ring_add(br: &mut IoUringBufRing, addr: u64, len: u32, bid: u16, mask: i32, buf_offset: i32)
    requires
        0 <= mask < old(br)@.bufs.len(),
    ensures
        final(br)@ == old(br)@.add(addr, len, bid, mask, buf_offset),
        0 <= old(br)@.slot(mask, buf_offset) <= mask,
{
    let past: i32 = (br.tail as i32).wrapping_add(buf_offset);
    proof {
        lemma_masked_slot(past, mask);
    }
    let at = (past & mask) as usize;
    let resv = br.bufs[at].resv;
    br.bufs[at] = IoUringBuf { addr, len, bid, resv };
}

/// Publishes `count` buffers, written before, to the kernel: the tail moves on by
/// `count`, with a release store.
pub fn io_uring_buf_ring_advance(br: &mut IoUringBufRing, count: i32)
    ensures
        final(br)@ == old(br)@.advance(count),
{
    let new_tail = br.tail.wrapping_add(#[verifier::truncate] (count as u16));
    br.tail = new_tail;
    buf_ring_store_release(br.ktail, new_tail);
}

/// Gives `cq_count` completions back and publishes `buf_count` buffers in one step: the
/// store that releases the completion ring's head publishes the buffer ring's tail too.
pub fn io_uring_buf_ring_cq_advance_internal(cq: &mut IoUringCq, br: &mut IoUringBufRing, cq_count: i32, buf_count: i32)
    ensures
        final(br)@ == old(br)@.advance(buf_count),
        final(cq)@ == old(cq)@.advance(cq_count as u32),
{
    let new_tail = br.tail.wrapping_add(#[verifier::truncate] (buf_count as u16));
    br.tail = new_tail;
    buf_ring_write_once(br.ktail, new_tail);
    cq.advance(#[verifier::truncate] (cq_count as u32));
}

/// Gives `count` completions back and publishes as many buffers.
pub fn io_uring_buf_ring_cq_advance(cq: &mut IoUringCq, br: &mut IoUringBufRing, count: i32)
    ensures
        final(br)@ == old(br)@.advance(count),
        final(cq)@ == old(cq)@.advance(count as u32),
{
    io_uring_buf_ring_cq_advance_internal(cq, br, count, count)
}

} // verus!
