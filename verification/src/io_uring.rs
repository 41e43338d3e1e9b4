//! The ring handle: both rings, what was negotiated with the kernel, and the count of the
//! entries on their way.
//!
//! Entering the kernel is not done here. A notification is a request that the caller
//! carries to the kernel, and a result that the caller brings back.
use crate::barrier::io_uring_read_once;
use crate::barrier::io_uring_smp_load_acquire;
use crate::buf_ring::BufRingView;
use crate::buf_ring::IoUringBufRing;
use crate::buf_ring::io_uring_buf_ring_cq_advance_internal;
use crate::consts::{
    IORING_FEAT_EXT_ARG,
    IORING_SETUP_CQE32,
    IORING_SETUP_SQE128,
    IORING_SETUP_SQPOLL,
};
use crate::cq::CqView;
use crate::cq::CqePeek;
use crate::cq::IoUringCq;
use crate::cqe::IoUringCqe;
use crate::entry::SubmissionEntry;
use crate::sq::IoUringSq;
use crate::sq::SqView;
use crate::sqe::IoUringSqe;
use vstd::prelude::*;

verus! {

/// The submission ring is full: the kernel has to be notified of the entries handed out, or
/// given time to consume them, before another one can be had.
#[derive(Clone, Copy, Debug, PartialEq, Eq, Structural)]
pub struct SQFullError;

impl SQFullError {
    /// What to tell a user.
    pub fn message(&self) -> (text: &'static str)
        ensures
            text@ == "SubmissionQueue is full. Notify the kernel of new entries via `io_uring_enter` or give it time to process requests."@,
    {
        "SubmissionQueue is full. Notify the kernel of new entries via `io_uring_enter` or give it time to process requests."
    }
}

/// What a notification asks of the kernel.
#[derive(Clone, Copy, Debug, PartialEq, Eq, Structural)]
pub struct EnterRequest {
    pub fd: i32,
    pub to_submit: u32,
    pub min_complete: u32,
    pub flags: u32,
}

/// What to do for the next completion.
#[derive(Clone, Copy, Debug, PartialEq, Eq, Structural)]
pub enum CqeWait {
    /// The oldest completion; it stays in the ring until it is given back.
    Ready(IoUringCqe),
    /// None is at hand: enter the kernel and wait for this many.
    Enter { wait_nr: u32 },
}

/// The state of a ring handle.
pub struct RingView {
    pub sq: SqView,
    pub cq: CqView,
    pub flags: u32,
    pub features: u32,
    pub ring_fd: i32,
    /// The ring of provided buffers, where one was registered.
    pub buf_ring: Option<BufRingView>,
    /// Entries handed out since the kernel last accepted any.
    pub unsubmitted: u32,
    /// Entries that the kernel accepted.
    pub in_flight: u32,
}

/// Whether setup flags ask for submission entries of double width.
pub open spec fn wide_sqes(flags: u32) -> bool {
    flags & IORING_SETUP_SQE128 != 0
}

/// Whether setup flags ask for completion entries of double width.
pub open spec fn wide_cqes(flags: u32) -> bool {
    flags & IORING_SETUP_CQE32 != 0
}

/// Whether setup flags have a kernel thread consume the submission ring.
pub open spec fn kernel_polls(flags: u32) -> bool {
    flags & IORING_SETUP_SQPOLL != 0
}

/// Whether the negotiated features include extended wait arguments.
pub open spec fn has_ext_arg(features: u32) -> bool {
    features & IORING_FEAT_EXT_ARG != 0
}

impl RingView {
    pub open spec fn wf(self) -> bool {
        &&& self.sq.wf()
        &&& self.cq.wf()
        &&& self.sq.wide == wide_sqes(self.flags)
        &&& self.cq.wide == wide_cqes(self.flags)
    }

    /// The handle after the kernel answered a notification with `res`: a negative answer
    /// changes nothing, any other moves that many entries from handed out to accepted.
    pub open spec fn entered(self, res: i32) -> RingView {
        if res < 0 {
            self
        } else {
            RingView {
                unsubmitted: (self.unsubmitted - res) as u32,
                in_flight: (self.in_flight + res) as u32,
                ..self
            }
        }
    }
}

impl CqeWait {
    /// What a look at the ring means for a caller that would wait for `wait_nr`
    /// completions: the entry found, or, where none was found or a timeout entry ended the
    /// look with an error, the way into the kernel.
    pub fn from_peek(found: CqePeek, wait_nr: u32) -> (next: CqeWait)
        ensures
            next == (match found.cqe {
                Some(cqe) if found.err == 0 => CqeWait::Ready(cqe),
                _ => CqeWait::Enter { wait_nr },
            }),
    {
        match found.cqe {
            Some(cqe) => {
                if found.err == 0 {
                    CqeWait::Ready(cqe)
                } else {
                    CqeWait::Enter { wait_nr }
                }
            },
            None => CqeWait::Enter { wait_nr },
        }
    }
}

/// The ring handle.
pub struct IoUring<'a> {
    sq: IoUringSq<'a>,
    cq: IoUringCq<'a>,
    flags: u32,
    ring_fd: i32,
    features: u32,
    buf_ring: Option<IoUringBufRing<'a>>,
    unsubmitted: u32,
    in_flight: u32,
}

impl<'a> View for IoUring<'a> {
    type V = RingView;

    closed spec fn view(&self) -> RingView {
        RingView {
            sq: self.sq@,
            cq: self.cq@,
            flags: self.flags,
            features: self.features,
            ring_fd: self.ring_fd,
            buf_ring: match self.buf_ring {
                Some(br) => Some(br@),
                None => None,
            },
            unsubmitted: self.unsubmitted,
            in_flight: self.in_flight,
        }
    }
}

impl<'a> IoUring<'a> {
    /// A handle on the two rings of the descriptor `ring_fd`, with the setup flags and the
    /// features that the kernel granted. There is one only where the width of both rings is
    /// the one that the flags name.
    pub fn new(sq: IoUringSq<'a>, cq: IoUringCq<'a>, flags: u32, features: u32, ring_fd: i32) -> (ring:
        Option<IoUring<'a>>)
        requires
            sq@.wf(),
            cq@.wf(),
        ensures
            ring is Some <==> sq@.wide == wide_sqes(flags) && cq@.wide == wide_cqes(flags),
            ring is Some ==> ring.unwrap()@ == (RingView {
                sq: sq@,
                cq: cq@,
                flags,
                features,
                ring_fd,
                buf_ring: None,
                unsubmitted: 0,
                in_flight: 0,
            }),
            ring is Some ==> ring.unwrap()@.wf(),
    {
        if sq.is_wide() != (flags & IORING_SETUP_SQE128 != 0) {
            return None;
        }
        if cq.is_wide() != (flags & IORING_SETUP_CQE32 != 0) {
            return None;
        }
        Some(IoUring { sq, cq, flags, ring_fd, features, buf_ring: None, unsubmitted: 0, in_flight: 0 })
    }

    /// How far the kernel has consumed the submission ring. The word is read plainly:
    /// the kernel moves it only after it has seen a later tail of this side. Where a
    /// kernel thread consumes the ring on its own, that does not hold, and the word is
    /// acquired.
    fn sq_khead(&self) -> u32 {
        if self.flags & IORING_SETUP_SQPOLL == 0 {
            io_uring_read_once(self.sq.khead())
        } else {
            io_uring_smp_load_acquire(self.sq.khead())
        }
    }

    /// The submission ring.
    pub fn sq(&self) -> (sq: &IoUringSq<'a>)
        ensures
            sq@ == self@.sq,
    {
        &self.sq
    }

    /// The completion ring.
    pub fn cq(&self) -> (cq: &IoUringCq<'a>)
        ensures
            cq@ == self@.cq,
    {
        &self.cq
    }

    /// The completion ring, to give entries back through.
    pub fn cq_mut(&mut self) -> (cq: &mut IoUringCq<'a>)
        ensures
            cq@ == old(self)@.cq,
            final(self)@ == (RingView { cq: final(cq)@, ..old(self)@ }),
    {
        &mut self.cq
    }

    /// Puts the ring of provided buffers `br` under the handle, and hands back the one
    /// that was there.
    pub fn set_buf_ring(&mut self, br: IoUringBufRing<'a>) -> (previous: Option<IoUringBufRing<'a>>)
        ensures
            final(self)@ == (RingView { buf_ring: Some(br@), ..old(self)@ }),
            match previous {
                Some(ring) => old(self)@.buf_ring == Some(ring@),
                None => old(self)@.buf_ring is None,
            },
    {
        let previous = self.buf_ring.take();
        self.buf_ring = Some(br);
        previous
    }

    /// The ring of provided buffers, to add buffers to and to publish them.
    pub fn buf_ring_mut(&mut self) -> (ring: Option<&mut IoUringBufRing<'a>>)
        ensures
            match ring {
                Some(br) => {
                    &&& old(self)@.buf_ring == Some(br@)
                    &&& final(self)@ == (RingView { buf_ring: Some(final(br)@), ..old(self)@ })
                },
                None => old(self)@.buf_ring is None && final(self)@ == old(self)@,
            },
    {
        self.buf_ring.as_mut()
    }

    /// Gives `count_cqe` completions back and publishes `count_buf` provided buffers in
    /// one step, as after a receive that consumed buffers. Without a ring of provided
    /// buffers under the handle nothing is done, and the answer is no.
    pub fn buf_ring_cq_advance(&mut self, count_cqe: i32, count_buf: i32) -> (done: bool)
        ensures
            done == old(self)@.buf_ring is Some,
            final(self)@ == (match old(self)@.buf_ring {
                Some(br) => RingView {
                    cq: old(self)@.cq.advance(count_cqe as u32),
                    buf_ring: Some(br.advance(count_buf)),
                    ..old(self)@
                },
                None => old(self)@,
            }),
    {
        match self.buf_ring.as_mut() {
            Some(br) => {
                io_uring_buf_ring_cq_advance_internal(&mut self.cq, br, count_cqe, count_buf);
                true
            },
            None => false,
        }
    }

    /// The setup flags that the ring was created with.
    pub fn flags(&self) -> (flags: u32)
        ensures
            flags == self@.flags,
    {
        self.flags
    }

    /// The features that the kernel granted.
    pub fn features(&self) -> (features: u32)
        ensures
            features == self@.features,
    {
        self.features
    }

    /// The descriptor of the ring.
    pub fn ring_fd(&self) -> (fd: i32)
        ensures
            fd == self@.ring_fd,
    {
        self.ring_fd
    }

    /// How many entries were handed out since the kernel last accepted any.
    pub fn unsubmitted(&self) -> (n: u32)
        ensures
            n == self@.unsubmitted,
    {
        self.unsubmitted
    }

    /// How many entries the kernel accepted.
    pub fn in_flight(&self) -> (n: u32)
        ensures
            n == self@.in_flight,
    {
        self.in_flight
    }

    /// The next free submission entry, counted as handed out.
    ///
    /// Whether there is one depends on how far the kernel has consumed, which is read here;
    /// `IoUringSq::acquire_slot` says for each reading when there is. A full ring is an
    /// error that leaves the handle as it is: notify the kernel, then try again.
    pub fn get_sqe(&mut self) -> (entry: Result<SubmissionEntry<'_>, SQFullError>)
        requires
            old(self)@.wf(),
            old(self)@.unsubmitted < u32::MAX,
        ensures
            match entry {
                Ok(entry) => {
                    &&& *entry.slot() == old(self)@.sq.sqes[old(self)@.sq.next_slot()]
                    &&& final(self)@ == (RingView {
                        sq: SqView {
                            sqes: old(self)@.sq.sqes.update(
                                old(self)@.sq.next_slot(),
                                *final(entry.slot()),
                            ),
                            ..old(self)@.sq.moved(1)
                        },
                        unsubmitted: (old(self)@.unsubmitted + 1) as u32,
                        ..old(self)@
                    })
                },
                Err(_) => final(self)@ == old(self)@,
            },
            0 <= old(self)@.sq.next_slot() < old(self)@.sq.sqes.len(),
    {
        let head = self.sq_khead();
        match self.sq.acquire_slot(head) {
            Some(sqe) => {
                self.unsubmitted = self.unsubmitted + 1;
                Ok(SubmissionEntry::new(sqe))
            },
            None => Err(SQFullError),
        }
    }

    /// Publishes what was handed out and says what to ask of the kernel: to take it, and
    /// to wait for nothing.
    pub fn enter(&mut self) -> (request: EnterRequest)
        ensures
            final(self)@ == (RingView { sq: old(self)@.sq.flushed(), ..old(self)@ }),
            request == (EnterRequest {
                fd: old(self)@.ring_fd,
                to_submit: old(self)@.unsubmitted,
                min_complete: 0,
                flags: 0,
            }),
    {
        self.enter_and_wait(0)
    }

    /// Publishes what was handed out and says what to ask of the kernel: to take it, and
    /// to wait for `wait_for` completions.
    ///
    /// The submission ring's tail is stored with release here, before the caller enters
    /// the kernel, so that the kernel sees the entries complete.
    pub fn enter_and_wait(&mut self, wait_for: u32) -> (request: EnterRequest)
        ensures
            final(self)@ == (RingView { sq: old(self)@.sq.flushed(), ..old(self)@ }),
            request == (EnterRequest {
                fd: old(self)@.ring_fd,
                to_submit: old(self)@.unsubmitted,
                min_complete: wait_for,
                flags: 0,
            }),
    {
        self.sq.flush();
        EnterRequest { fd: self.ring_fd, to_submit: self.unsubmitted, min_complete: wait_for, flags: 0 }
    }

    /// Takes the kernel's answer to a notification.
    ///
    /// A negative answer is the error, and nothing changes, so the notification can be
    /// repeated. Any other answer is the number of entries that the kernel accepted, which
    /// may be fewer than were handed out: those move from handed out to accepted, the rest
    /// wait for the next notification.
    pub fn complete_enter(&mut self, res: i32) -> (accepted: Result<u32, i32>)
        requires
            res <= old(self)@.unsubmitted,
            old(self)@.in_flight + res <= u32::MAX,
        ensures
            final(self)@ == old(self)@.entered(res),
            accepted == (if res < 0 {
                Err::<u32, i32>(res)
            } else {
                Ok::<u32, i32>(res as u32)
            }),
    {
        if res < 0 {
            return Err(res);
        }
        let accepted = res as u32;
        self.unsubmitted = self.unsubmitted - accepted;
        self.in_flight = self.in_flight + accepted;
        Ok(accepted)
    }
}

/// The next free submission entry.
///
/// How far the kernel has consumed is read plainly, or acquired where a kernel thread
/// consumes the ring on its own. `IoUringSq::acquire_slot` says for each reading whether
/// there is an entry; a full ring is left as it is.
pub fn io_uring_get_sqe<'a, 'b>(ring: &'b mut IoUring<'a>) -> (slot: Option<&'b mut IoUringSqe>)
    requires
        old(ring)@.wf(),
    ensures
        match slot {
            Some(sqe) => {
                &&& *sqe == old(ring)@.sq.sqes[old(ring)@.sq.next_slot()]
                &&& final(ring)@ == (RingView {
                    sq: SqView {
                        sqes: old(ring)@.sq.sqes.update(old(ring)@.sq.next_slot(), *final(sqe)),
                        ..old(ring)@.sq.moved(1)
                    },
                    ..old(ring)@
                })
            },
            None => final(ring)@ == old(ring)@,
        },
        0 <= old(ring)@.sq.next_slot() < old(ring)@.sq.sqes.len(),
{
    let head = ring.sq_khead();
    ring.sq.acquire_slot(head)
}

/// How many entries were handed out and not yet consumed by the kernel.
pub fn io_uring_sq_ready(ring: &IoUring) -> u32 {
    let head = ring.sq_khead();
    ring.sq.ready_at(head)
}

/// How many more entries the submission ring can hand out.
pub fn io_uring_sq_space_left(ring: &IoUring) -> u32 {
    let head = ring.sq_khead();
    ring.sq.space_left_at(head)
}

/// Whether a caller has to wait in the kernel for room in the submission ring, when the
/// kernel's head reads `head`: only where a kernel thread consumes the ring and no space
/// is left.
pub fn sqring_wait_at(ring: &IoUring, head: u32) -> (wait: bool)
    ensures
        wait == (kernel_polls(ring@.flags) && ring@.sq.space_left(head) == 0),
{
    ring.flags & IORING_SETUP_SQPOLL != 0 && ring.sq.space_left_at(head) == 0
}

/// Whether the caller has to wait in the kernel for room in the submission ring. Without
/// a kernel thread that consumes the ring there is never such a wait; with one, the
/// kernel's head is acquired and `sqring_wait_at` says what follows from it.
pub fn io_uring_sqring_wait(ring: &IoUring) -> (wait: bool)
    ensures
        !kernel_polls(ring@.flags) ==> !wait,
{
    if ring.flags & IORING_SETUP_SQPOLL == 0 {
        return false;
    }
    let head = ring.sq_khead();
    sqring_wait_at(ring, head)
}

/// How many completions are ready.
pub fn io_uring_cq_ready(cq: &IoUringCq) -> u32 {
    cq.ready()
}

/// Whether the kernel dropped completions because the completion ring was full.
pub fn io_uring_cq_has_overflown(sq: &IoUringSq) -> bool {
    sq.cq_has_overflown()
}

/// Gives `seen` completions back to the kernel.
pub fn io_uring_cq_advance(cq: &mut IoUringCq, seen: u32)
    ensures
        final(cq)@ == old(cq)@.advance(seen),
{
    cq.advance(seen);
}

/// Gives the completion `_cqe`, once processed, back to the kernel.
pub fn io_uring_cqe_seen(cq: &mut IoUringCq, _cqe: IoUringCqe)
    ensures
        final(cq)@ == old(cq)@.advance(1),
{
    io_uring_cq_advance(cq, 1);
}

/// Whether `found` and `after` are what a look at `before` gives for some reading of the
/// kernel's tail.
pub open spec fn is_peek_of(before: CqView, ext_arg: bool, tail: u32, found: CqePeek, after: CqView) -> bool {
    before.peek(tail, ext_arg) == (found, after)
}

/// Looks for the oldest completion without waiting.
///
/// The kernel's tail is acquired once; `IoUringCq::peek_at` says what is found for each
/// reading. Only the completion ring's head can have moved.
pub fn io_uring_peek_cqe_internal(ring: &mut IoUring) -> (found: CqePeek)
    requires
        old(ring)@.wf(),
    ensures
        final(ring)@ == (RingView { cq: final(ring)@.cq, ..old(ring)@ }),
        final(ring)@.wf(),
        exists|tail: u32|
            is_peek_of(old(ring)@.cq, has_ext_arg(old(ring)@.features), tail, found, final(ring)@.cq),
{
    let ext_arg = ring.features & IORING_FEAT_EXT_ARG != 0;
    let tail = ring.cq.ktail_acquire();
    let found = ring.cq.peek_at(tail, ext_arg);
    assert(is_peek_of(old(ring)@.cq, has_ext_arg(old(ring)@.features), tail, found, ring@.cq));
    found
}

/// The oldest completion, or the way into the kernel to fetch what is pending there
/// without waiting.
pub fn io_uring_peek_cqe(ring: &mut IoUring) -> (next: CqeWait)
    requires
        old(ring)@.wf(),
    ensures
        final(ring)@ == (RingView { cq: final(ring)@.cq, ..old(ring)@ }),
        final(ring)@.wf(),
        exists|tail: u32, found: CqePeek|
            #[trigger] is_peek_of(
                old(ring)@.cq,
                has_ext_arg(old(ring)@.features),
                tail,
                found,
                final(ring)@.cq,
            ) && next == wait_for(found, 0),
{
    let found = io_uring_peek_cqe_internal(ring);
    let next = CqeWait::from_peek(found, 0);
    assert(next == wait_for(found, 0));
    next
}

/// The oldest completion, or the way into the kernel to wait for one.
pub fn io_uring_wait_cqe(ring: &mut IoUring) -> (next: CqeWait)
    requires
        old(ring)@.wf(),
    ensures
        final(ring)@ == (RingView { cq: final(ring)@.cq, ..old(ring)@ }),
        final(ring)@.wf(),
        exists|tail: u32, found: CqePeek|
            #[trigger] is_peek_of(
                old(ring)@.cq,
                has_ext_arg(old(ring)@.features),
                tail,
                found,
                final(ring)@.cq,
            ) && next == wait_for(found, 1),
{
    let found = io_uring_peek_cqe_internal(ring);
    let next = CqeWait::from_peek(found, 1);
    assert(next == wait_for(found, 1));
    next
}

/// What a look means for a caller that would wait for `wait_nr` completions.
pub open spec fn wait_for(found: CqePeek, wait_nr: u32) -> CqeWait {
    match found.cqe {
        Some(cqe) if found.err == 0 => CqeWait::Ready(cqe),
        _ => CqeWait::Enter { wait_nr },
    }
}

} // verus!
