//! Borrowed views of the rings for applications: a submission slot with the encoders
//! that servers use most, and the submission ring itself.
use crate::sq::IoUringSq;
use crate::sq::SqView;
use crate::sqe::IoUringSqe;
use crate::sqe::SqeView;
use vstd::prelude::*;

verus! {

/// A slot of the submission ring, borrowed until the request is encoded.
///
/// Each encoder hands the entry back, so that calls can be chained. Its contract says
/// what the slot holds when the call returns, and that the entry handed back is the
/// entry itself: what is written through it later is written to the same slot.
pub struct SubmissionEntry<'a> {
    inner: &'a mut IoUringSqe,
}

impl<'a> SubmissionEntry<'a> {
    /// The slot that the entry writes to.
    pub closed spec fn slot(self) -> &'a mut IoUringSqe {
        self.inner
    }

    /// Once an entry is no longer written through, its slot holds for good what it
    /// holds now.
    pub proof fn lemma_slot_resolved(self)
        requires
            has_resolved(self),
        ensures
            *self.slot() == *final(self.slot()),
    {
    }

    /// An entry on the slot `sqe`.
    pub fn new(sqe: &'a mut IoUringSqe) -> (entry: SubmissionEntry<'a>)
        ensures
            *entry.slot() == *old(sqe),
            *final(entry.slot()) == *final(sqe),
    {
        SubmissionEntry { inner: sqe }
    }

    /// Associates `data` with the request; the completion hands it back.
    pub fn set_user_data(&mut self, data: u64) -> (entry: &mut Self)
        ensures
            (*(*entry).slot())@ == (SqeView { user_data: data, ..(*old(self).slot())@ }),
            *final((*entry).slot()) == *final(old(self).slot()),
            *final(self) == *final(entry),
    {
        self.inner.set_data64(data);
        self
    }

    /// Accepts one connection on the listening socket `fd`; the peer's address is not
    /// asked for.
    pub fn prep_accept(&mut self, fd: i32) -> (entry: &mut Self)
        ensures
            (*(*entry).slot())@ == (*old(self).slot())@.prep_accept(fd, 0, 0, 0),
            *final((*entry).slot()) == *final(old(self).slot()),
            *final(self) == *final(entry),
    {
        self.inner.prep_accept(fd, None, None, 0);
        self
    }

    /// Accepts connections on the listening socket `fd` until the request ends. Each
    /// completion says in its flags whether more will follow; once none will, the request
    /// has to be made again.
    pub fn prep_accept_multi(&mut self, fd: i32) -> (entry: &mut Self)
        ensures
            (*(*entry).slot())@ == (*old(self).slot())@.prep_multishot_accept(fd, 0, 0, 0),
            *final((*entry).slot()) == *final(old(self).slot()),
            *final(self) == *final(entry),
    {
        self.inner.prep_multishot_accept(fd, None, None, 0);
        self
    }

    /// Receives from the socket `fd` into `buffer`, which has to stay where it is until
    /// the completion is seen.
    pub fn prep_recv(&mut self, fd: i32, buffer: &mut [u8]) -> (entry: &mut Self)
        ensures
            (*(*entry).slot())@ == (*old(self).slot())@.prep_recv(
                fd,
                (*(*entry).slot())@.addr,
                old(buffer)@.len() as u32,
                0,
            ),
            *final((*entry).slot()) == *final(old(self).slot()),
            *final(self) == *final(entry),
            final(buffer)@ == old(buffer)@,
    {
        self.inner.prep_recv(fd, buffer, 0);
        self
    }

    /// Sends `buffer` on the socket `fd`; the buffer has to stay where it is until the
    /// kernel has taken the request.
    pub fn prep_send(&mut self, fd: i32, buffer: &[u8]) -> (entry: &mut Self)
        ensures
            (*(*entry).slot())@ == (*old(self).slot())@.prep_send(
                fd,
                (*(*entry).slot())@.addr,
                buffer@.len() as u32,
                0,
            ),
            *final((*entry).slot()) == *final(old(self).slot()),
            *final(self) == *final(entry),
    {
        self.inner.prep_send(fd, buffer, 0);
        self
    }

    /// Closes `fd`.
    pub fn prep_close(&mut self, fd: i32) -> (entry: &mut Self)
        ensures
            (*(*entry).slot())@ == (*old(self).slot())@.prep_close(fd),
            *final((*entry).slot()) == *final(old(self).slot()),
            *final(self) == *final(entry),
    {
        self.inner.prep_close(fd);
        self
    }
}

/// The submission ring, borrowed to look at.
pub struct SubmissionQueue<'a, 'b> {
    inner: &'b IoUringSq<'a>,
}

impl<'a, 'b> View for SubmissionQueue<'a, 'b> {
    type V = SqView;

    closed spec fn view(&self) -> SqView {
        self.inner@
    }
}

impl<'a, 'b> SubmissionQueue<'a, 'b> {
    pub fn new(sq: &'b IoUringSq<'a>) -> (queue: SubmissionQueue<'a, 'b>)
        ensures
            queue@ == sq@,
    {
        SubmissionQueue { inner: sq }
    }

    /// How many entries the ring holds.
    pub fn ring_entries(&self) -> (entries: u32)
        ensures
            entries == self@.ring_entries,
    {
        self.inner.ring_entries()
    }

    /// How many entries were handed out and not yet consumed, when the kernel's head reads
    /// `head`.
    pub fn ready_at(&self, head: u32) -> (n: u32)
        ensures
            n == self@.ready(head),
    {
        self.inner.ready_at(head)
    }
}

} // verus!
