//! The completion ring: the kernel produces into it, this side consumes.
//!
//! The kernel owns the tail and publishes it with a release store once an entry is
//! written; this side reads it with an acquire load, which is what makes the entry itself
//! visible. The head belongs to this side: it is kept here and published with a release
//! store whenever it moves, so that the kernel may reuse the slots behind it.
use crate::barrier::io_uring_read_once;
use crate::barrier::io_uring_smp_load_acquire;
use crate::barrier::io_uring_smp_store_release;
use crate::consts::{
    IORING_SQ_CQ_OVERFLOW,
    LIBURING_UDATA_TIMEOUT,
};
use crate::cqe::IoUringCqe;
use crate::ring::check_ring_size;
use crate::ring::is_ring_size;
use crate::ring::lemma_slot_in_bounds;
use crate::ring::slot_count;
use crate::ring::slot_of;
use std::sync::atomic::AtomicU32;
use vstd::prelude::*;

verus! {

/// What a look at the completion ring found.
#[derive(Clone, Copy, Debug, PartialEq, Eq, Structural)]
pub struct CqePeek {
    /// Zero, or the negative result of a timeout entry that was consumed.
    pub err: i32,
    /// The oldest entry that was not consumed, where there is one and `err` is zero.
    pub cqe: Option<IoUringCqe>,
    /// How many entries were ready, the one that ended the look included; zero where the
    /// ring ran empty.
    pub available: u32,
}

/// The state of a completion ring.
pub struct CqView {
    pub cqes: Seq<IoUringCqe>,
    pub head: u32,
    pub ring_mask: u32,
    pub ring_entries: u32,
    pub wide: bool,
}

impl CqView {
    pub open spec fn wf(self) -> bool {
        &&& is_ring_size(self.ring_entries)
        &&& self.ring_mask == self.ring_entries - 1
        &&& self.cqes.len() == slot_count(self.ring_entries, self.wide)
    }

    /// How many entries are ready when the kernel's tail reads `tail`.
    pub open spec fn ready(self, tail: u32) -> u32 {
        tail.wrapping_sub(self.head)
    }

    /// The ring after `n` entries were given back.
    pub open spec fn advance(self, n: u32) -> CqView {
        CqView { head: self.head.wrapping_add(n), ..self }
    }

    /// The oldest entry that was not given back yet.
    pub open spec fn front(self) -> IoUringCqe {
        self.cqes[slot_of(self.head, self.ring_mask, self.wide)]
    }

    /// Whether the oldest entry is one of the timeout entries that waiting posts for itself
    /// where the kernel takes no extended wait arguments.
    pub open spec fn front_is_timeout(self, ext_arg: bool) -> bool {
        !ext_arg && self.front()@.user_data == LIBURING_UDATA_TIMEOUT
    }

    /// What a look finds when the kernel's tail reads `tail`, and the ring it leaves.
    ///
    /// Timeout entries at the front are consumed one by one. One with a negative result
    /// ends the look with that result and no entry. The first other entry is the one found;
    /// it stays in the ring.
    pub open spec fn peek(self, tail: u32, ext_arg: bool) -> (CqePeek, CqView)
        decreases self.ready(tail),
    {
        let available = self.ready(tail);
        if available == 0 {
            (CqePeek { err: 0, cqe: None, available: 0 }, self)
        } else if self.front_is_timeout(ext_arg) {
            if self.front()@.res < 0 {
                (CqePeek { err: self.front()@.res, cqe: None, available }, self.advance(1))
            } else {
                self.advance(1).peek(tail, ext_arg)
            }
        } else {
            (CqePeek { err: 0, cqe: Some(self.front()), available }, self)
        }
    }
}

/// Whether ring flags say that the kernel dropped completions for want of room.
pub fn overflow_flagged(kflags: u32) -> (lost: bool)
    ensures
        lost == (kflags & IORING_SQ_CQ_OVERFLOW != 0),
{
    kflags & IORING_SQ_CQ_OVERFLOW > 0
}

/// The completion ring.
pub struct IoUringCq<'a> {
    khead: &'a AtomicU32,
    ktail: &'a AtomicU32,
    kflags: &'a AtomicU32,
    cqes: Vec<IoUringCqe>,
    head: u32,
    ring_mask: u32,
    ring_entries: u32,
    wide: bool,
}

impl<'a> View for IoUringCq<'a> {
    type V = CqView;

    closed spec fn view(&self) -> CqView {
        CqView {
            cqes: self.cqes@,
            head: self.head,
            ring_mask: self.ring_mask,
            ring_entries: self.ring_entries,
            wide: self.wide,
        }
    }
}

impl<'a> IoUringCq<'a> {
    /// A ring of `entries` entries over the slots `cqes`, with its head at `head`.
    ///
    /// `khead`, `ktail` and `kflags` are the words shared with the kernel. There is a ring
    /// only where `entries` is a power of two and `cqes` has one slot for each entry, or
    /// two for each in a ring of double-width entries.
    pub fn new(
        khead: &'a AtomicU32,
        ktail: &'a AtomicU32,
        kflags: &'a AtomicU32,
        cqes: Vec<IoUringCqe>,
        entries: u32,
        wide: bool,
        head: u32,
    ) -> (ring: Option<IoUringCq<'a>>)
        ensures
            ring is Some <==> is_ring_size(entries) && cqes@.len() == slot_count(entries, wide),
            ring is Some ==> ring.unwrap()@ == (CqView {
                cqes: cqes@,
                head,
                ring_mask: (entries - 1) as u32,
                ring_entries: entries,
                wide,
            }),
    {
        if !check_ring_size(entries) {
            return None;
        }
        let want: u64 = if wide {
            2 * (entries as u64)
        } else {
            entries as u64
        };
        if cqes.len() as u64 != want {
            return None;
        }
        Some(
            IoUringCq {
                khead,
                ktail,
                kflags,
                cqes,
                head,
                ring_mask: entries - 1,
                ring_entries: entries,
                wide,
            },
        )
    }

    /// Whether each entry takes two slots.
    pub fn is_wide(&self) -> (wide: bool)
        ensures
            wide == self@.wide,
    {
        self.wide
    }

    /// How many entries the ring holds.
    pub fn ring_entries(&self) -> (entries: u32)
        ensures
            entries == self@.ring_entries,
    {
        self.ring_entries
    }

    /// The mask that takes a cursor to its entry.
    pub fn ring_mask(&self) -> (mask: u32)
        ensures
            mask == self@.ring_mask,
    {
        self.ring_mask
    }

    /// The cursor of the oldest entry that was not given back.
    pub fn head(&self) -> (head: u32)
        ensures
            head == self@.head,
    {
        self.head
    }

    /// The entry in the slot `index`, where there is such a slot.
    pub fn cqe(&self, index: usize) -> (cqe: Option<IoUringCqe>)
        ensures
            cqe == (if index < self@.cqes.len() {
                Some(self@.cqes[index as int])
            } else {
                None
            }),
    {
        if index < self.cqes.len() {
            Some(self.cqes[index])
        } else {
            None
        }
    }

    /// Writes `cqe` to the slot `index`, as the kernel does before it moves its tail.
    /// Nothing is written where there is no such slot.
    pub fn post(&mut self, index: usize, cqe: IoUringCqe) -> (written: bool)
        ensures
            written == (index < old(self)@.cqes.len()),
            final(self)@ == (if written {
                CqView { cqes: old(self)@.cqes.update(index as int, cqe), ..old(self)@ }
            } else {
                old(self)@
            }),
    {
        if index < self.cqes.len() {
            self.cqes[index] = cqe;
            true
        } else {
            false
        }
    }

    /// The kernel's tail, acquired: the entries before it are visible from here on.
    pub fn ktail_acquire(&self) -> u32 {
        io_uring_smp_load_acquire(self.ktail)
    }

    /// How many entries are ready when the kernel's tail reads `tail`.
    pub fn ready_at(&self, tail: u32) -> (n: u32)
        ensures
            n == self@.ready(tail),
    {
        tail.wrapping_sub(self.head)
    }

    /// How many entries are ready now: the kernel's tail, acquired, less the head.
    pub fn ready(&self) -> u32 {
        let tail = self.ktail_acquire();
        self.ready_at(tail)
    }

    /// Whether the kernel dropped completions because the ring was full. Once it has,
    /// what arrives is neither complete nor in order.
    pub fn has_overflown(&self) -> bool {
        overflow_flagged(io_uring_read_once(self.kflags))
    }

    /// Gives `n` entries back to the kernel: the head moves on by `n` and is published.
    pub fn advance(&mut self, n: u32)
        ensures
            final(self)@ == old(self)@.advance(n),
    {
        if n > 0 {
            self.head = self.head.wrapping_add(n);
            io_uring_smp_store_release(self.khead, self.head);
        }
    }

    /// Looks for the oldest entry when the kernel's tail reads `tail`.
    ///
    /// `ext_arg` says whether the kernel takes extended wait arguments; where it does not,
    /// the timeout entries of waiting are consumed here and never handed out.
    pub fn peek_at(&mut self, tail: u32, ext_arg: bool) -> (found: CqePeek)
        requires
            old(self)@.wf(),
        ensures
            found == old(self)@.peek(tail, ext_arg).0,
            final(self)@ == old(self)@.peek(tail, ext_arg).1,
            final(self)@ == (CqView { head: final(self)@.head, ..old(self)@ }),
    {
        loop
            invariant
                self@.wf(),
                self@ == (CqView { head: self@.head, ..old(self)@ }),
                self@.peek(tail, ext_arg) == old(self)@.peek(tail, ext_arg),
            decreases self@.ready(tail),
        {
            let available = tail.wrapping_sub(self.head);
            if available == 0 {
                return CqePeek { err: 0, cqe: None, available: 0 };
            }
            proof {
                lemma_slot_in_bounds(self.head, self.ring_entries, self.wide);
            }
            let shift: u32 = if self.wide {
                1
            } else {
                0
            };
            let slot = ((self.head & self.ring_mask) << shift) as usize;
            let cqe = self.cqes[slot];
            if !ext_arg && cqe.get_data() == LIBURING_UDATA_TIMEOUT {
                let res = cqe.result();
                self.advance(1);
                if res < 0 {
                    return CqePeek { err: res, cqe: None, available };
                }
                continue ;
            }
            return CqePeek { err: 0, cqe: Some(cqe), available };
        }
    }
}

/// After `n` of the ready entries were given back, exactly `n` fewer are ready, wherever
/// the cursors stand on the 32-bit circle.
pub proof fn lemma_advance_takes_from_ready(cq: CqView, tail: u32, n: u32)
    requires
        n <= cq.ready(tail),
    ensures
        cq.advance(n).ready(tail) == cq.ready(tail) - n,
{
}

/// Giving back in two steps is giving back the sum.
pub proof fn lemma_advance_twice(cq: CqView, n: u32, m: u32)
    ensures
        cq.advance(n).advance(m) == cq.advance(n.wrapping_add(m)),
{
}

/// A timeout entry with result zero in front of a genuine entry is passed over: the look
/// finds the genuine entry, with no error, and leaves the ring with only the timeout
/// entry consumed.
pub proof fn lemma_peek_skips_timeout(cq: CqView, tail: u32)
    requires
        cq.wf(),
        cq.ready(tail) >= 2,
        cq.front()@.user_data == LIBURING_UDATA_TIMEOUT,
        cq.front()@.res == 0,
        cq.advance(1).front()@.user_data != LIBURING_UDATA_TIMEOUT,
    ensures
        cq.peek(tail, false).0 == (CqePeek {
            err: 0,
            cqe: Some(cq.advance(1).front()),
            available: (cq.ready(tail) - 1) as u32,
        }),
        cq.peek(tail, false).1 == cq.advance(1),
{
    reveal_with_fuel(CqView::peek, 2);
}

} // verus!
