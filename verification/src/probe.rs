//! What the kernel answered when it was asked which operations it supports.
use crate::consts::{
    IO_URING_OP_SUPPORTED,
};
use vstd::prelude::*;

verus! {

/// The answer for one operation.
#[derive(Clone, Copy, Debug, PartialEq, Eq, Structural)]
pub struct IoUringProbeOp {
    pub op: u8,
    pub resv: u8,
    pub flags: u16,
    pub resv2: u32,
}

/// The answers for all operations up to `last_op`, by operation code.
pub struct IoUringProbe {
    pub last_op: u8,
    pub ops_len: u8,
    pub ops: Vec<IoUringProbeOp>,
}

/// What a probe says of the operation `op`: one where the kernel supports it, zero where
/// it does not or where `op` is past the last operation that the kernel knows.
///
/// `op` is compared by its low byte; where that is not past the last operation, `op`
/// itself has to index the answers.
pub fn io_uring_opcode_supported(probe: &IoUringProbe, op: i32) -> (supported: i32)
    requires
        (op as u8) <= probe.last_op ==> 0 <= op < probe.ops@.len(),
    ensures
        supported == (if (op as u8) > probe.last_op {
            0
        } else {
            (probe.ops@[op as int].flags & (IO_URING_OP_SUPPORTED as u16)) as i32
        }),
{
    if #[verifier::truncate] (op as u8) > probe.last_op {
        return 0;
    }
    let flags: u16 = probe.ops[op as usize].flags & (IO_URING_OP_SUPPORTED as u16);
    flags as i32
}

} // verus!
