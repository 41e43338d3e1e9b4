//! A pass over the completions that are ready, which gives them all back at its end.
use crate::cq::IoUringCq;
use crate::cqe::IoUringCqe;
use crate::ring::lemma_slot_in_bounds;
use vstd::prelude::*;

verus! {

/// The completions that were ready when the pass began, handed out oldest first.
///
/// Nothing is given back to the kernel while the pass lasts; `release` ends it and gives
/// back what was handed out, in one step. A pass that is dropped without it gives nothing
/// back, and the next one hands out the same completions again.
pub struct CompletionQueue<'a, 'b> {
    inner: &'b mut IoUringCq<'a>,
    count: u32,
    tail: u32,
}

impl<'a, 'b> CompletionQueue<'a, 'b> {
    /// The ring that the pass runs over.
    pub closed spec fn ring(self) -> &'b mut IoUringCq<'a> {
        self.inner
    }

    /// How many completions the pass has handed out.
    pub closed spec fn count(self) -> u32 {
        self.count
    }

    /// The reading of the kernel's tail that the pass began with.
    pub closed spec fn tail(self) -> u32 {
        self.tail
    }

    /// How many completions the pass has still to hand out.
    pub open spec fn remaining(self) -> int {
        (*self.ring())@.ready(self.tail()) - self.count()
    }

    /// Once a pass is over, its ring holds for good what it holds now: a pass that ends
    /// without `release` has given nothing back.
    pub proof fn lemma_ring_resolved(self)
        requires
            has_resolved(self),
        ensures
            *self.ring() == *final(self.ring()),
    {
    }

    pub open spec fn wf(self) -> bool {
        &&& (*self.ring())@.wf()
        &&& 0 <= self.remaining()
    }

    /// A pass over what is ready when the kernel's tail reads `tail`.
    pub fn new_at(cq: &'b mut IoUringCq<'a>, tail: u32) -> (pass: CompletionQueue<'a, 'b>)
        requires
            old(cq)@.wf(),
        ensures
            pass.wf(),
            *pass.ring() == *old(cq),
            *final(pass.ring()) == *final(cq),
            pass.count() == 0,
            pass.tail() == tail,
    {
        CompletionQueue { inner: cq, count: 0, tail }
    }

    /// A pass over what is ready now: the kernel's tail is acquired once, here.
    pub fn new(cq: &'b mut IoUringCq<'a>) -> (pass: CompletionQueue<'a, 'b>)
        requires
            old(cq)@.wf(),
        ensures
            pass.wf(),
            *pass.ring() == *old(cq),
            *final(pass.ring()) == *final(cq),
            pass.count() == 0,
    {
        let tail = cq.ktail_acquire();
        CompletionQueue::new_at(cq, tail)
    }

    /// The next completion of the pass, or nothing once all that were ready were handed
    /// out.
    pub fn next(&mut self) -> (cqe: Option<IoUringCqe>)
        requires
            old(self).wf(),
        ensures
            final(self).wf(),
            *final(self).ring() == *old(self).ring(),
            *final(final(self).ring()) == *final(old(self).ring()),
            final(self).tail() == old(self).tail(),
            cqe == (if old(self).remaining() == 0 {
                None
            } else {
                Some((*old(self).ring())@.advance(old(self).count()).front())
            }),
            final(self).count() == (if old(self).remaining() == 0 {
                old(self).count() as int
            } else {
                old(self).count() + 1
            }),
    {
        let ready = self.inner.ready_at(self.tail);
        if self.count == ready {
            return None;
        }
        let at = self.inner.head().wrapping_add(self.count);
        proof {
            lemma_slot_in_bounds(at, (*self.inner)@.ring_entries, (*self.inner)@.wide);
        }
        let shift: u32 = if self.inner.is_wide() {
            1
        } else {
            0
        };
        let slot = ((at & self.inner.ring_mask()) << shift) as usize;
        let cqe = self.inner.cqe(slot);
        self.count = self.count + 1;
        cqe
    }

    /// Ends the pass: the completions that it handed out are given back to the kernel.
    pub fn release(self) -> (given_back: u32)
        ensures
            given_back == self.count(),
            final(self.ring())@ == (*self.ring())@.advance(self.count()),
    {
        self.inner.advance(self.count);
        self.count
    }
}

} // verus!
