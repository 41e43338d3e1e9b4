//! The submission ring: this side produces into it, the kernel consumes.
//!
//! The kernel owns the head. The tail kept here counts the entries handed out so far; it
//! is local bookkeeping, and the kernel learns of new entries only when it is notified.
use crate::barrier::io_uring_read_once;
use crate::barrier::io_uring_smp_store_release;
use crate::cq::overflow_flagged;
use crate::ring::check_ring_size;
use crate::ring::is_ring_size;
use crate::ring::lemma_slot_in_bounds;
use crate::ring::slot_count;
use crate::ring::slot_of;
use crate::sqe::IoUringSqe;
use std::sync::atomic::AtomicU32;
use vstd::prelude::*;

verus! {

/// The state of a submission ring, and the words that it shares with the kernel.
pub struct SqView {
    /// The word through which the kernel publishes how far it has consumed.
    pub khead: AtomicU32,
    /// The word through which the tail is published to the kernel.
    pub ktail: AtomicU32,
    /// The word of the ring flags.
    pub kflags: AtomicU32,
    /// The word in which the kernel counts the entries it refused.
    pub kdropped: AtomicU32,
    pub sqes: Seq<IoUringSqe>,
    pub sqe_head: u32,
    pub sqe_tail: u32,
    pub ring_mask: u32,
    pub ring_entries: u32,
    pub wide: bool,
}

impl SqView {
    pub open spec fn wf(self) -> bool {
        &&& is_ring_size(self.ring_entries)
        &&& self.ring_mask == self.ring_entries - 1
        &&& self.sqes.len() == slot_count(self.ring_entries, self.wide)
    }

    /// How many entries were handed out and not yet consumed, when the kernel's head reads
    /// `head`.
    pub open spec fn ready(self, head: u32) -> u32 {
        self.sqe_tail.wrapping_sub(head)
    }

    /// How many more entries the ring can hand out when the kernel's head reads `head`.
    pub open spec fn space_left(self, head: u32) -> u32 {
        self.ring_entries.wrapping_sub(self.ready(head))
    }

    /// Whether the ring can hand out one more entry when the kernel's head reads `head`.
    pub open spec fn has_room(self, head: u32) -> bool {
        self.sqe_tail.wrapping_add(1).wrapping_sub(head) <= self.ring_entries
    }

    /// The slot that the next entry is handed out from.
    pub open spec fn next_slot(self) -> int {
        slot_of(self.sqe_tail, self.ring_mask, self.wide)
    }

    /// How many entries were handed out and not yet published to the kernel.
    pub open spec fn pending(self) -> u32 {
        self.sqe_tail.wrapping_sub(self.sqe_head)
    }

    /// The ring after everything handed out was published.
    pub open spec fn flushed(self) -> SqView {
        SqView { sqe_head: self.sqe_tail, ..self }
    }

    /// The ring after `n` entries were handed out, with the slots as they are.
    pub open spec fn moved(self, n: u32) -> SqView {
        SqView { sqe_tail: self.sqe_tail.wrapping_add(n), ..self }
    }
}

/// The submission ring.
pub struct IoUringSq<'a> {
    khead: &'a AtomicU32,
    ktail: &'a AtomicU32,
    kflags: &'a AtomicU32,
    kdropped: &'a AtomicU32,
    sqes: Vec<IoUringSqe>,
    sqe_head: u32,
    sqe_tail: u32,
    ring_mask: u32,
    ring_entries: u32,
    wide: bool,
}

impl<'a> View for IoUringSq<'a> {
    type V = SqView;

    closed spec fn view(&self) -> SqView {
        SqView {
            khead: *self.khead,
            ktail: *self.ktail,
            kflags: *self.kflags,
            kdropped: *self.kdropped,
            sqes: self.sqes@,
            sqe_head: self.sqe_head,
            sqe_tail: self.sqe_tail,
            ring_mask: self.ring_mask,
            ring_entries: self.ring_entries,
            wide: self.wide,
        }
    }
}

impl<'a> IoUringSq<'a> {
    /// A ring of `entries` entries over the slots `sqes`, with both cursors at `start`.
    ///
    /// `khead`, `ktail`, `kflags` and `kdropped` are the words shared with the kernel, and
    /// stay the ring's words for as long as it lives. There is a ring only where `entries` is a power of two and `sqes` has one slot for each
    /// entry, or two for each in a ring of double-width entries.
    pub fn new(
        khead: &'a AtomicU32,
        ktail: &'a AtomicU32,
        kflags: &'a AtomicU32,
        kdropped: &'a AtomicU32,
        sqes: Vec<IoUringSqe>,
        entries: u32,
        wide: bool,
        start: u32,
    ) -> (ring: Option<IoUringSq<'a>>)
        ensures
            ring is Some <==> is_ring_size(entries) && sqes@.len() == slot_count(entries, wide),
            ring is Some ==> ring.unwrap()@ == (SqView {
                khead: *khead,
                ktail: *ktail,
                kflags: *kflags,
                kdropped: *kdropped,
                sqes: sqes@,
                sqe_head: start,
                sqe_tail: start,
                ring_mask: (entries - 1) as u32,
                ring_entries: entries,
                wide,
            }),
    {
        if !check_ring_size(entries) {
            return None;
        }
        let want: u64 = if wide {
            2 * (entries as u64)
        } else {
            entries as u64
        };
        if sqes.len() as u64 != want {
            return None;
        }
        Some(
            IoUringSq {
                khead,
                ktail,
                kflags,
                kdropped,
                sqes,
                sqe_head: start,
                sqe_tail: start,
                ring_mask: entries - 1,
                ring_entries: entries,
                wide,
            },
        )
    }

    /// Whether each entry takes two slots.
    pub fn is_wide(&self) -> (wide: bool)
        ensures
            wide == self@.wide,
    {
        self.wide
    }

    /// How many entries the ring holds.
    pub fn ring_entries(&self) -> (entries: u32)
        ensures
            entries == self@.ring_entries,
    {
        self.ring_entries
    }

    /// The mask that takes a cursor to its entry.
    pub fn ring_mask(&self) -> (mask: u32)
        ensures
            mask == self@.ring_mask,
    {
        self.ring_mask
    }

    /// The cursor of the next entry to hand out.
    pub fn sqe_tail(&self) -> (tail: u32)
        ensures
            tail == self@.sqe_tail,
    {
        self.sqe_tail
    }

    /// The cursor up to which entries were published to the kernel.
    pub fn sqe_head(&self) -> (head: u32)
        ensures
            head == self@.sqe_head,
    {
        self.sqe_head
    }

    /// The entry in the slot `index`, where there is such a slot.
    pub fn sqe(&self, index: usize) -> (sqe: Option<&IoUringSqe>)
        ensures
            sqe == (if index < self@.sqes.len() {
                Some(&self@.sqes[index as int])
            } else {
                None
            }),
    {
        if index < self.sqes.len() {
            Some(&self.sqes[index])
        } else {
            None
        }
    }

    /// The word through which the kernel publishes how far it has consumed: the one that
    /// the ring was made on.
    pub fn khead(&self) -> (word: &'a AtomicU32)
        ensures
            *word == self@.khead,
    {
        self.khead
    }

    /// The word through which the tail is published to the kernel: the one that the ring
    /// was made on.
    pub fn ktail(&self) -> (word: &'a AtomicU32)
        ensures
            *word == self@.ktail,
    {
        self.ktail
    }

    /// The word in which the kernel counts the entries it refused: the one that the ring
    /// was made on.
    pub fn kdropped(&self) -> (word: &'a AtomicU32)
        ensures
            *word == self@.kdropped,
    {
        self.kdropped
    }

    /// How many entries were handed out and not yet consumed, when the kernel's head reads
    /// `head`.
    pub fn ready_at(&self, head: u32) -> (n: u32)
        ensures
            n == self@.ready(head),
    {
        self.sqe_tail.wrapping_sub(head)
    }

    /// How many more entries the ring can hand out when the kernel's head reads `head`.
    pub fn space_left_at(&self, head: u32) -> (n: u32)
        ensures
            n == self@.space_left(head),
    {
        self.ring_entries.wrapping_sub(self.ready_at(head))
    }

    /// Whether the ring flags say that the kernel dropped completions for want of room.
    pub fn cq_has_overflown(&self) -> bool {
        overflow_flagged(io_uring_read_once(self.kflags))
    }

    /// Publishes the entries handed out so far: where there are any that the kernel has not
    /// been told of, the tail is stored with release, so that whoever acquires it sees what
    /// was written to the entries before. Says how many were published by this call.
    pub fn flush(&mut self) -> (published: u32)
        ensures
            published == old(self)@.pending(),
            final(self)@ == old(self)@.flushed(),
    {
        let published = self.sqe_tail.wrapping_sub(self.sqe_head);
        if self.sqe_head != self.sqe_tail {
            self.sqe_head = self.sqe_tail;
            io_uring_smp_store_release(self.ktail, self.sqe_tail);
        }
        published
    }

    /// Hands out the next slot when the kernel's head reads `head`.
    ///
    /// There is a slot exactly where the entries handed out and not consumed, this one
    /// included, do not exceed the ring. The slot is the one of the tail, and the tail
    /// moves on by one. A full ring is left as it is.
    pub fn acquire_slot(&mut self, head: u32) -> (slot: Option<&mut IoUringSqe>)
        requires
            old(self)@.wf(),
        ensures
            slot is Some <==> old(self)@.has_room(head),
            match slot {
                Some(sqe) => {
                    &&& *sqe == old(self)@.sqes[old(self)@.next_slot()]
                    &&& final(self)@ == (SqView {
                        sqes: old(self)@.sqes.update(old(self)@.next_slot(), *final(sqe)),
                        ..old(self)@.moved(1)
                    })
                },
                None => final(self)@ == old(self)@,
            },
            0 <= old(self)@.next_slot() < old(self)@.sqes.len(),
    {
        proof {
            lemma_slot_in_bounds(self.sqe_tail, self.ring_entries, self.wide);
        }
        let next = self.sqe_tail.wrapping_add(1);
        if next.wrapping_sub(head) <= self.ring_entries {
            let shift: u32 = if self.wide {
                1
            } else {
                0
            };
            let slot = ((self.sqe_tail & self.ring_mask) << shift) as usize;
            self.sqe_tail = next;
            Some(&mut self.sqes[slot])
        } else {
            None
        }
    }
}

/// In a run of acquisitions against one reading of the kernel's head, the acquisition
/// after `i` others finds room as long as `i` is below the space that was left when the
/// run began, and its slot is the masked tail (twice that in a ring of double-width
/// entries).
pub proof fn lemma_acquire_run(sq: SqView, head: u32, i: u32)
    requires
        sq.wf(),
        sq.ready(head) <= sq.ring_entries,
        i < sq.space_left(head),
    ensures
        sq.moved(i).has_room(head),
        sq.moved(i).next_slot() == slot_of(sq.sqe_tail.wrapping_add(i), sq.ring_mask, sq.wide),
        0 <= sq.moved(i).next_slot() < sq.sqes.len(),
        !sq.wide ==> sq.moved(i).next_slot() == (sq.sqe_tail.wrapping_add(i) & sq.ring_mask),
{
    lemma_slot_in_bounds(sq.sqe_tail.wrapping_add(i), sq.ring_entries, sq.wide);
}

/// A ring whose every entry is handed out and not consumed has no room.
pub proof fn lemma_full_ring_has_no_room(sq: SqView, head: u32)
    requires
        sq.wf(),
        sq.ready(head) == sq.ring_entries,
    ensures
        !sq.has_room(head),
        sq.space_left(head) == 0,
{
    crate::ring::lemma_ring_size_bound(sq.ring_entries);
}

/// Room is exactly space: the ring can hand out an entry where space is left, as long as
/// the kernel's head is not ahead of the tail.
pub proof fn lemma_room_is_space(sq: SqView, head: u32)
    requires
        sq.wf(),
        sq.ready(head) <= sq.ring_entries,
    ensures
        sq.has_room(head) <==> sq.space_left(head) > 0,
{
    crate::ring::lemma_ring_size_bound(sq.ring_entries);
}

} // verus!
