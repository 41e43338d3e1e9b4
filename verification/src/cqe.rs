//! The completion queue entry and the flags it carries.
use crate::consts::{
    IORING_CQE_F_BUFFER,
    IORING_CQE_F_MORE,
    IORING_CQE_F_NOTIF,
    IORING_CQE_F_SOCK_NONEMPTY,
};
use vstd::prelude::*;

verus! {

/// The flags of a completion: four named bits, and in the upper half the id of the
/// provided buffer that the kernel chose, where the `Buffer` bit says so. Every bit is kept.
#[derive(Clone, Copy, Debug, PartialEq, Eq, Hash, Structural)]
pub struct CqeFlags {
    bits: u32,
}

impl View for CqeFlags {
    type V = u32;

    closed spec fn view(&self) -> u32 {
        self.bits
    }
}

impl CqeFlags {
    /// The upper half of the flags carries the id of the buffer chosen for the request.
    pub fn buffer() -> (flags: CqeFlags)
        ensures
            flags@ == IORING_CQE_F_BUFFER,
    {
        CqeFlags { bits: IORING_CQE_F_BUFFER }
    }

    /// The request will post further completions.
    pub fn more() -> (flags: CqeFlags)
        ensures
            flags@ == IORING_CQE_F_MORE,
    {
        CqeFlags { bits: IORING_CQE_F_MORE }
    }

    /// The socket still held data when the receive completed.
    pub fn sock_non_empty() -> (flags: CqeFlags)
        ensures
            flags@ == IORING_CQE_F_SOCK_NONEMPTY,
    {
        CqeFlags { bits: IORING_CQE_F_SOCK_NONEMPTY }
    }

    /// The completion is the notification of a zero-copy send, not its result.
    pub fn notification() -> (flags: CqeFlags)
        ensures
            flags@ == IORING_CQE_F_NOTIF,
    {
        CqeFlags { bits: IORING_CQE_F_NOTIF }
    }

    /// The flags with exactly the bits of `bits`, known or not.
    pub fn from_bits_retain(bits: u32) -> (flags: CqeFlags)
        ensures
            flags@ == bits,
    {
        CqeFlags { bits }
    }

    /// The raw value.
    pub fn bits(&self) -> (bits: u32)
        ensures
            bits == self@,
    {
        self.bits
    }

    /// Whether every bit of `other` is set in `self`.
    pub fn contains(&self, other: CqeFlags) -> (all: bool)
        ensures
            all == (self@ & other@ == other@),
    {
        self.bits & other.bits == other.bits
    }

    /// The id of the provided buffer that the kernel chose: the upper half of the flags
    /// where the `Buffer` bit is set, nothing where it is clear.
    pub fn get_buffer_id(&self) -> (id: Option<u16>)
        ensures
            id == spec_buffer_id(self@),
    {
        if self.contains(CqeFlags::buffer()) {
            Some(#[verifier::truncate] ((self.bits >> 16) as u16))
        } else {
            None
        }
    }
}

/// The buffer id that raw completion flags carry.
pub open spec fn spec_buffer_id(bits: u32) -> Option<u16> {
    if bits & IORING_CQE_F_BUFFER == IORING_CQE_F_BUFFER {
        Some((bits >> 16) as u16)
    } else {
        None
    }
}

/// Flags made of a buffer id in the upper half, the `Buffer` bit, and any of the other
/// bits of the lower half give back exactly that id; with the `Buffer` bit clear they
/// give none.
pub proof fn lemma_buffer_id_extraction(id: u16, low: u16)
    ensures
        spec_buffer_id(((id as u32) << 16) | (low as u32) | IORING_CQE_F_BUFFER) == Some(id),
        spec_buffer_id(((id as u32) << 16) | ((low as u32) & !IORING_CQE_F_BUFFER)) == None::<u16>,
{
    let set: u32 = ((id as u32) << 16) | (low as u32) | 1u32;
    let clear: u32 = ((id as u32) << 16) | ((low as u32) & !1u32);
    assert(set & 1u32 == 1u32 && (set >> 16) as u16 == id) by (bit_vector)
        requires
            set == ((id as u32) << 16) | (low as u32) | 1u32,
    ;
    assert(clear & 1u32 != 1u32) by (bit_vector)
        requires
            clear == ((id as u32) << 16) | ((low as u32) & !1u32),
    ;
}

/// One completion, as the kernel posts it.
#[derive(Clone, Copy, Debug, PartialEq, Eq, Structural)]
pub struct IoUringCqe {
    user_data: u64,
    res: i32,
    flags: u32,
}

/// What a completion holds.
pub struct CqeView {
    pub user_data: u64,
    pub res: i32,
    pub flags: u32,
}

impl View for IoUringCqe {
    type V = CqeView;

    closed spec fn view(&self) -> CqeView {
        CqeView { user_data: self.user_data, res: self.res, flags: self.flags }
    }
}

impl IoUringCqe {
    /// A completion with the given token, result and raw flags.
    pub fn new(user_data: u64, res: i32, flags: u32) -> (cqe: IoUringCqe)
        ensures
            cqe@ == (CqeView { user_data, res, flags }),
    {
        IoUringCqe { user_data, res, flags }
    }

    /// The correlation token of the request that this completion answers.
    pub fn get_data(&self) -> (data: u64)
        ensures
            data == self@.user_data,
    {
        self.user_data
    }

    /// The flags of the completion.
    pub fn flags(&self) -> (flags: CqeFlags)
        ensures
            flags@ == self@.flags,
    {
        CqeFlags::from_bits_retain(self.flags)
    }

    /// The result of the operation: what the system call would have returned, or the
    /// negated error number.
    pub fn result(&self) -> (res: i32)
        ensures
            res == self@.res,
    {
        self.res
    }
}

/// A completion is what it holds: two that hold the same are the same.
pub proof fn lemma_cqe_is_its_view(a: IoUringCqe, b: IoUringCqe)
    requires
        a@ == b@,
    ensures
        a == b,
{
}

/// The correlation token of the request that `cqe` answers.
pub fn io_uring_cqe_get_data64(cqe: &IoUringCqe) -> (data: u64)
    ensures
        data == cqe@.user_data,
{
    cqe.get_data()
}

/// A completion borrowed from the ring.
pub struct CompletionEntry<'a> {
    inner: &'a IoUringCqe,
}

impl<'a> View for CompletionEntry<'a> {
    type V = CqeView;

    closed spec fn view(&self) -> CqeView {
        self.inner@
    }
}

impl<'a> CompletionEntry<'a> {
    pub fn new(cqe: &'a IoUringCqe) -> (entry: CompletionEntry<'a>)
        ensures
            entry@ == cqe@,
    {
        CompletionEntry { inner: cqe }
    }

    /// The correlation token set on the request.
    pub fn get_user_data(&self) -> (data: u64)
        ensures
            data == self@.user_data,
    {
        self.inner.get_data()
    }

    /// The flags of the completion.
    pub fn flags(&self) -> (flags: CqeFlags)
        ensures
            flags@ == self@.flags,
    {
        self.inner.flags()
    }

    /// The result of the operation.
    pub fn result(&self) -> (res: i32)
        ensures
            res == self@.res,
    {
        self.inner.result()
    }
}

} // verus!
