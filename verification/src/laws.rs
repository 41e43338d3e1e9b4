//! What holds of the encoders, whatever a slot held before: each operation reads back
//! from the cells what was encoded, and the request to allocate a direct descriptor
//! reaches the kernel as one value by every way that leads to it.
use crate::consts::{
    IORING_ACCEPT_MULTISHOT,
    IORING_ASYNC_CANCEL_FD,
    IORING_FILE_INDEX_ALLOC,
    IORING_MSG_RING_FLAGS_PASS,
    IORING_MSG_SEND_FD,
    IORING_OP_ACCEPT,
    IORING_OP_ASYNC_CANCEL,
    IORING_OP_CLOSE,
    IORING_OP_CONNECT,
    IORING_OP_FALLOCATE,
    IORING_OP_FILES_UPDATE,
    IORING_OP_FSYNC,
    IORING_OP_LINK_TIMEOUT,
    IORING_OP_MSG_RING,
    IORING_OP_NOP,
    IORING_OP_OPENAT,
    IORING_OP_POLL_ADD,
    IORING_OP_POLL_REMOVE,
    IORING_OP_READ,
    IORING_OP_READV,
    IORING_OP_READ_FIXED,
    IORING_OP_RECV,
    IORING_OP_RECVMSG,
    IORING_OP_SEND,
    IORING_OP_SENDMSG,
    IORING_OP_SENDMSG_ZC,
    IORING_OP_SEND_ZC,
    IORING_OP_SOCKET,
    IORING_OP_SPLICE,
    IORING_OP_TEE,
    IORING_OP_TIMEOUT,
    IORING_OP_TIMEOUT_REMOVE,
    IORING_OP_WRITE,
    IORING_OP_WRITEV,
    IORING_OP_WRITE_FIXED,
    IORING_POLL_ADD_MULTI,
    IORING_RECVSEND_FIXED_BUF,
    IORING_RECV_MULTISHOT,
    IORING_TIMEOUT_UPDATE,
};
use crate::sqe::SqeView;
use crate::sqe::direct_slot;
use crate::sqe::direct_slot_signed;
use crate::sqe::fixed_file_wire;
use crate::sqe::lemma_addr_len_cell;
use crate::sqe::lemma_i32_cell;
use crate::sqe::lemma_i32_wide_cell;
use crate::sqe::lemma_i64_cell;
use crate::sqe::lemma_u32_cell;
use vstd::prelude::*;

verus! {

/// A splice reads back both descriptors, both offsets, the length and the flags.
pub proof fn lemma_round_trip_splice(
    s: SqeView,
    fd_in: i32,
    off_in: i64,
    fd_out: i32,
    off_out: i64,
    nbytes: u32,
    splice_flags: u32,
)
    ensures
        ({
            let e = s.prep_splice(fd_in, off_in, fd_out, off_out, nbytes, splice_flags);
            &&& e.opcode == IORING_OP_SPLICE
            &&& e.flags == 0
            &&& e.ioprio == 0
            &&& e.fd == fd_out
            &&& e.off as i64 == off_out
            &&& e.addr as i64 == off_in
            &&& e.len == nbytes
            &&& e.op_flags == splice_flags
            &&& e.splice_fd_in() == fd_in
        }),
{
    lemma_i64_cell(off_in);
    lemma_i64_cell(off_out);
    lemma_i32_cell(fd_in);
}

/// A tee reads back both descriptors, the length and the flags.
pub proof fn lemma_round_trip_tee(
    s: SqeView,
    fd_in: i32,
    fd_out: i32,
    nbytes: u32,
    splice_flags: u32,
)
    ensures
        ({
            let e = s.prep_tee(fd_in, fd_out, nbytes, splice_flags);
            &&& e.opcode == IORING_OP_TEE
            &&& e.flags == 0
            &&& e.ioprio == 0
            &&& e.fd == fd_out
            &&& e.off == 0
            &&& e.addr == 0
            &&& e.len == nbytes
            &&& e.op_flags == splice_flags
            &&& e.splice_fd_in() == fd_in
        }),
{
    lemma_i32_cell(fd_in);
}

/// A vectored read reads back the descriptor, where the vectors are, how many, and the
/// offset.
pub proof fn lemma_round_trip_readv(s: SqeView, fd: i32, iovecs: u64, count: u32, offset: u64)
    ensures
        ({
            let e = s.prep_readv(fd, iovecs, count, offset);
            &&& e.opcode == IORING_OP_READV
            &&& e.flags == 0
            &&& e.ioprio == 0
            &&& e.fd == fd
            &&& e.addr == iovecs
            &&& e.len == count
            &&& e.off == offset
        }),
{
}

/// A vectored read with flags reads those back too.
pub proof fn lemma_round_trip_readv2(
    s: SqeView,
    fd: i32,
    iovecs: u64,
    count: u32,
    offset: u64,
    flags: i32,
)
    ensures
        ({
            let e = s.prep_readv2(fd, iovecs, count, offset, flags);
            &&& e.opcode == IORING_OP_READV
            &&& e.flags == 0
            &&& e.ioprio == 0
            &&& e.fd == fd
            &&& e.addr == iovecs
            &&& e.len == count
            &&& e.off == offset
            &&& e.rw_flags() == flags
        }),
{
    lemma_i32_cell(flags);
}

/// A vectored write reads back the descriptor, where the vectors are, how many, and the
/// offset.
pub proof fn lemma_round_trip_writev(s: SqeView, fd: i32, iovecs: u64, count: u32, offset: u64)
    ensures
        ({
            let e = s.prep_writev(fd, iovecs, count, offset);
            &&& e.opcode == IORING_OP_WRITEV
            &&& e.flags == 0
            &&& e.ioprio == 0
            &&& e.fd == fd
            &&& e.addr == iovecs
            &&& e.len == count
            &&& e.off == offset
        }),
{
}

/// A vectored write with flags reads those back too.
pub proof fn lemma_round_trip_writev2(
    s: SqeView,
    fd: i32,
    iovecs: u64,
    count: u32,
    offset: u64,
    flags: i32,
)
    ensures
        ({
            let e = s.prep_writev2(fd, iovecs, count, offset, flags);
            &&& e.opcode == IORING_OP_WRITEV
            &&& e.flags == 0
            &&& e.ioprio == 0
            &&& e.fd == fd
            &&& e.addr == iovecs
            &&& e.len == count
            &&& e.off == offset
            &&& e.rw_flags() == flags
        }),
{
    lemma_i32_cell(flags);
}

/// A transfer on a registered buffer reads back the buffer's index, as long as the index
/// fits the 16 bits of its cell.
pub proof fn lemma_round_trip_read_fixed(
    s: SqeView,
    fd: i32,
    buf: u64,
    nbytes: u32,
    offset: u64,
    buf_index: i32,
)
    requires
        0 <= buf_index <= 0xffff,
    ensures
        ({
            let e = s.prep_read_fixed(fd, buf, nbytes, offset, buf_index);
            &&& e.opcode == IORING_OP_READ_FIXED
            &&& e.flags == 0
            &&& e.ioprio == 0
            &&& e.fd == fd
            &&& e.addr == buf
            &&& e.len == nbytes
            &&& e.off == offset
            &&& e.buf_index as i32 == buf_index
        }),
{
}

/// A transfer on a registered buffer reads back the buffer's index, as long as the index
/// fits the 16 bits of its cell.
pub proof fn lemma_round_trip_write_fixed(
    s: SqeView,
    fd: i32,
    buf: u64,
    nbytes: u32,
    offset: u64,
    buf_index: i32,
)
    requires
        0 <= buf_index <= 0xffff,
    ensures
        ({
            let e = s.prep_write_fixed(fd, buf, nbytes, offset, buf_index);
            &&& e.opcode == IORING_OP_WRITE_FIXED
            &&& e.flags == 0
            &&& e.ioprio == 0
            &&& e.fd == fd
            &&& e.addr == buf
            &&& e.len == nbytes
            &&& e.off == offset
            &&& e.buf_index as i32 == buf_index
        }),
{
}

/// A read reads back the descriptor, the buffer, its length and the offset.
pub proof fn lemma_round_trip_read(s: SqeView, fd: i32, buf: u64, nbytes: u32, offset: u64)
    ensures
        ({
            let e = s.prep_read(fd, buf, nbytes, offset);
            &&& e.opcode == IORING_OP_READ
            &&& e.flags == 0
            &&& e.ioprio == 0
            &&& e.fd == fd
            &&& e.addr == buf
            &&& e.len == nbytes
            &&& e.off == offset
        }),
{
}

/// A write reads back the descriptor, the buffer, its length and the offset.
pub proof fn lemma_round_trip_write(s: SqeView, fd: i32, buf: u64, nbytes: u32, offset: u64)
    ensures
        ({
            let e = s.prep_write(fd, buf, nbytes, offset);
            &&& e.opcode == IORING_OP_WRITE
            &&& e.flags == 0
            &&& e.ioprio == 0
            &&& e.fd == fd
            &&& e.addr == buf
            &&& e.len == nbytes
            &&& e.off == offset
        }),
{
}

/// A message receive reads back the descriptor, where the message header is, and the flags;
/// its length is one.
pub proof fn lemma_round_trip_recvmsg(s: SqeView, fd: i32, msg: u64, flags: u32)
    ensures
        ({
            let e = s.prep_recvmsg(fd, msg, flags);
            &&& e.opcode == IORING_OP_RECVMSG
            &&& e.flags == 0
            &&& e.ioprio == 0
            &&& e.fd == fd
            &&& e.addr == msg
            &&& e.len == 1
            &&& e.off == 0
            &&& e.op_flags == flags
        }),
{
}

/// A multishot message receive is a message receive with the multishot bit in `ioprio`.
pub proof fn lemma_round_trip_recvmsg_multishot(s: SqeView, fd: i32, msg: u64, flags: u32)
    ensures
        ({
            let e = s.prep_recvmsg_multishot(fd, msg, flags);
            &&& e == (SqeView { ioprio: IORING_RECV_MULTISHOT as u16, ..s.prep_recvmsg(fd, msg, flags) })
            &&& e.opcode == IORING_OP_RECVMSG
            &&& e.addr == msg
            &&& e.op_flags == flags
        }),
{
}

/// A message send reads back the descriptor, where the message header is, and the flags;
/// its length is one.
pub proof fn lemma_round_trip_sendmsg(s: SqeView, fd: i32, msg: u64, flags: u32)
    ensures
        ({
            let e = s.prep_sendmsg(fd, msg, flags);
            &&& e.opcode == IORING_OP_SENDMSG
            &&& e.flags == 0
            &&& e.ioprio == 0
            &&& e.fd == fd
            &&& e.addr == msg
            &&& e.len == 1
            &&& e.off == 0
            &&& e.op_flags == flags
        }),
{
}

/// A zero-copy message send differs from a message send in the operation only.
pub proof fn lemma_round_trip_sendmsg_zc(s: SqeView, fd: i32, msg: u64, flags: u32)
    ensures
        ({
            let e = s.prep_sendmsg_zc(fd, msg, flags);
            &&& e.opcode == IORING_OP_SENDMSG_ZC
            &&& e.flags == 0
            &&& e.ioprio == 0
            &&& e.fd == fd
            &&& e.addr == msg
            &&& e.len == 1
            &&& e.op_flags == flags
        }),
{
}

/// A poll reads back the descriptor and the event mask as it was stored.
pub proof fn lemma_round_trip_poll_add(s: SqeView, fd: i32, events: u32)
    ensures
        ({
            let e = s.prep_poll_add(fd, events);
            &&& e.opcode == IORING_OP_POLL_ADD
            &&& e.flags == 0
            &&& e.ioprio == 0
            &&& e.fd == fd
            &&& e.op_flags == events
            &&& e.len == 0
            &&& e.addr == 0
            &&& e.off == 0
        }),
{
}

/// A multishot poll is a poll whose length is the multishot flag.
pub proof fn lemma_round_trip_poll_multishot(s: SqeView, fd: i32, events: u32)
    ensures
        ({
            let e = s.prep_poll_multishot(fd, events);
            &&& e.opcode == IORING_OP_POLL_ADD
            &&& e.flags == 0
            &&& e.ioprio == 0
            &&& e.fd == fd
            &&& e.op_flags == events
            &&& e.len == IORING_POLL_ADD_MULTI
        }),
{
}

/// A poll removal reads back the token of the request to remove.
pub proof fn lemma_round_trip_poll_remove(s: SqeView, user_data: u64)
    ensures
        ({
            let e = s.prep_poll_remove(user_data);
            &&& e.opcode == IORING_OP_POLL_REMOVE
            &&& e.flags == 0
            &&& e.ioprio == 0
            &&& e.fd == -1
            &&& e.addr == user_data
            &&& e.len == 0
            &&& e.off == 0
        }),
{
}

/// A poll update reads back both tokens, the mask as it was stored, and the flags, which
/// are kept in the length.
pub proof fn lemma_round_trip_poll_update(
    s: SqeView,
    old_user_data: u64,
    new_user_data: u64,
    events: u32,
    flags: u32,
)
    ensures
        ({
            let e = s.prep_poll_update(old_user_data, new_user_data, events, flags);
            &&& e.opcode == IORING_OP_POLL_REMOVE
            &&& e.flags == 0
            &&& e.ioprio == 0
            &&& e.fd == -1
            &&& e.addr == old_user_data
            &&& e.off == new_user_data
            &&& e.op_flags == events
            &&& e.len == flags
        }),
{
}

/// A sync reads back the descriptor and the flags.
pub proof fn lemma_round_trip_fsync(s: SqeView, fd: i32, fsync_flags: u32)
    ensures
        ({
            let e = s.prep_fsync(fd, fsync_flags);
            &&& e.opcode == IORING_OP_FSYNC
            &&& e.flags == 0
            &&& e.ioprio == 0
            &&& e.fd == fd
            &&& e.op_flags == fsync_flags
            &&& e.len == 0
            &&& e.off == 0
            &&& e.addr == 0
        }),
{
}

/// A no-op has no descriptor, no address and no length.
pub proof fn lemma_round_trip_nop(s: SqeView)
    ensures
        ({
            let e = s.prep_nop();
            &&& e.opcode == IORING_OP_NOP
            &&& e.flags == 0
            &&& e.ioprio == 0
            &&& e.fd == -1
            &&& e.len == 0
            &&& e.off == 0
            &&& e.addr == 0
        }),
{
}

/// A timeout reads back where the time is, the count and the flags.
pub proof fn lemma_round_trip_timeout(s: SqeView, ts: u64, count: u32, flags: u32)
    ensures
        ({
            let e = s.prep_timeout(ts, count, flags);
            &&& e.opcode == IORING_OP_TIMEOUT
            &&& e.flags == 0
            &&& e.ioprio == 0
            &&& e.fd == -1
            &&& e.addr == ts
            &&& e.off == count
            &&& e.len == 1
            &&& e.op_flags == flags
        }),
{
}

/// A timeout removal reads back the token and the flags.
pub proof fn lemma_round_trip_timeout_remove(s: SqeView, user_data: u64, flags: u32)
    ensures
        ({
            let e = s.prep_timeout_remove(user_data, flags);
            &&& e.opcode == IORING_OP_TIMEOUT_REMOVE
            &&& e.flags == 0
            &&& e.ioprio == 0
            &&& e.fd == -1
            &&& e.addr == user_data
            &&& e.op_flags == flags
            &&& e.len == 0
            &&& e.off == 0
        }),
{
}

/// A timeout update reads back where the new time is and the token; its flags are the ones
/// passed with the update bit set.
pub proof fn lemma_round_trip_timeout_update(s: SqeView, ts: u64, user_data: u64, flags: u32)
    ensures
        ({
            let e = s.prep_timeout_update(ts, user_data, flags);
            &&& e.opcode == IORING_OP_TIMEOUT_REMOVE
            &&& e.flags == 0
            &&& e.ioprio == 0
            &&& e.fd == -1
            &&& e.off == ts
            &&& e.addr == user_data
            &&& e.op_flags == flags | IORING_TIMEOUT_UPDATE
            &&& e.len == 0
        }),
{
}

/// A linked timeout reads back where the time is and the flags.
pub proof fn lemma_round_trip_link_timeout(s: SqeView, ts: u64, flags: u32)
    ensures
        ({
            let e = s.prep_link_timeout(ts, flags);
            &&& e.opcode == IORING_OP_LINK_TIMEOUT
            &&& e.flags == 0
            &&& e.ioprio == 0
            &&& e.fd == -1
            &&& e.addr == ts
            &&& e.len == 1
            &&& e.off == 0
            &&& e.op_flags == flags
        }),
{
}

/// An accept reads back the descriptor, where the address and its length go, and the flags;
/// its length is zero.
pub proof fn lemma_round_trip_accept(s: SqeView, fd: i32, addr: u64, addrlen: u64, flags: u32)
    ensures
        ({
            let e = s.prep_accept(fd, addr, addrlen, flags);
            &&& e.opcode == IORING_OP_ACCEPT
            &&& e.flags == 0
            &&& e.ioprio == 0
            &&& e.fd == fd
            &&& e.addr == addr
            &&& e.off == addrlen
            &&& e.len == 0
            &&& e.op_flags == flags
        }),
{
}

/// A multishot accept is an accept with the multishot bit in `ioprio`.
pub proof fn lemma_round_trip_multishot_accept(
    s: SqeView,
    fd: i32,
    addr: u64,
    addrlen: u64,
    flags: u32,
)
    ensures
        ({
            let e = s.prep_multishot_accept(fd, addr, addrlen, flags);
            &&& e == (SqeView { ioprio: IORING_ACCEPT_MULTISHOT as u16, ..s.prep_accept(fd, addr, addrlen, flags) })
            &&& e.opcode == IORING_OP_ACCEPT
            &&& e.fd == fd
            &&& e.op_flags == flags
        }),
{
}

/// A cancellation by token reads back the token and the flags.
pub proof fn lemma_round_trip_cancel64(s: SqeView, user_data: u64, flags: i32)
    ensures
        ({
            let e = s.prep_cancel64(user_data, flags);
            &&& e.opcode == IORING_OP_ASYNC_CANCEL
            &&& e.flags == 0
            &&& e.ioprio == 0
            &&& e.fd == -1
            &&& e.addr == user_data
            &&& e.op_flags as i32 == flags
            &&& e.len == 0
            &&& e.off == 0
        }),
{
    lemma_i32_cell(flags);
}

/// A cancellation by descriptor reads back the descriptor; its flags are the ones passed
/// with the by-descriptor bit set.
pub proof fn lemma_round_trip_cancel_fd(s: SqeView, fd: i32, flags: u32)
    ensures
        ({
            let e = s.prep_cancel_fd(fd, flags);
            &&& e.opcode == IORING_OP_ASYNC_CANCEL
            &&& e.flags == 0
            &&& e.ioprio == 0
            &&& e.fd == fd
            &&& e.op_flags == flags | IORING_ASYNC_CANCEL_FD
            &&& e.addr == 0
            &&& e.len == 0
        }),
{
}

/// A connect reads back the descriptor, where the address is, and its length, which is kept
/// in the offset.
pub proof fn lemma_round_trip_connect(s: SqeView, fd: i32, addr: u64, addrlen: u32)
    ensures
        ({
            let e = s.prep_connect(fd, addr, addrlen);
            &&& e.opcode == IORING_OP_CONNECT
            &&& e.flags == 0
            &&& e.ioprio == 0
            &&& e.fd == fd
            &&& e.addr == addr
            &&& e.off == addrlen
            &&& e.len == 0
        }),
{
}

/// A file table update reads back where the descriptors are, how many, and the table
/// offset.
pub proof fn lemma_round_trip_files_update(s: SqeView, fds: u64, count: u32, offset: i32)
    ensures
        ({
            let e = s.prep_files_update(fds, count, offset);
            &&& e.opcode == IORING_OP_FILES_UPDATE
            &&& e.flags == 0
            &&& e.ioprio == 0
            &&& e.fd == -1
            &&& e.addr == fds
            &&& e.len == count
            &&& e.off as i32 == offset
        }),
{
    lemma_i32_wide_cell(offset);
}

/// An allocation reads back the descriptor, the mode, which is kept in the length, the
/// offset, and the length, which is kept in the address.
pub proof fn lemma_round_trip_fallocate(s: SqeView, fd: i32, mode: i32, offset: u64, len: u64)
    ensures
        ({
            let e = s.prep_fallocate(fd, mode, offset, len);
            &&& e.opcode == IORING_OP_FALLOCATE
            &&& e.flags == 0
            &&& e.ioprio == 0
            &&& e.fd == fd
            &&& e.len as i32 == mode
            &&& e.off == offset
            &&& e.addr == len
        }),
{
    lemma_i32_cell(mode);
}

/// An open reads back the directory descriptor, where the path is, the flags, and the mode,
/// which is kept in the length.
pub proof fn lemma_round_trip_openat(s: SqeView, dfd: i32, path: u64, flags: i32, mode: u32)
    ensures
        ({
            let e = s.prep_openat(dfd, path, flags, mode);
            &&& e.opcode == IORING_OP_OPENAT
            &&& e.flags == 0
            &&& e.ioprio == 0
            &&& e.fd == dfd
            &&& e.addr == path
            &&& e.op_flags as i32 == flags
            &&& e.len == mode
            &&& e.off == 0
        }),
{
    lemma_i32_cell(flags);
}

/// A close reads back the descriptor.
pub proof fn lemma_round_trip_close(s: SqeView, fd: i32)
    ensures
        ({
            let e = s.prep_close(fd);
            &&& e.opcode == IORING_OP_CLOSE
            &&& e.flags == 0
            &&& e.ioprio == 0
            &&& e.fd == fd
            &&& e.addr == 0
            &&& e.len == 0
            &&& e.off == 0
        }),
{
}

/// A send reads back the socket, the buffer, its length and the flags.
pub proof fn lemma_round_trip_send(s: SqeView, sockfd: i32, buf: u64, nbytes: u32, flags: i32)
    ensures
        ({
            let e = s.prep_send(sockfd, buf, nbytes, flags);
            &&& e.opcode == IORING_OP_SEND
            &&& e.flags == 0
            &&& e.ioprio == 0
            &&& e.fd == sockfd
            &&& e.addr == buf
            &&& e.len == nbytes
            &&& e.op_flags as i32 == flags
            &&& e.off == 0
        }),
{
    lemma_i32_cell(flags);
}

/// Naming a destination reads back where the address is and its length, and touches nothing
/// else but the cell that holds the length.
pub proof fn lemma_round_trip_send_set_addr(s: SqeView, dest_addr: u64, addr_len: u16)
    ensures
        ({
            let e = s.prep_send_set_addr(dest_addr, addr_len);
            &&& e.off == dest_addr
            &&& e.addr_len() == addr_len
            &&& e == (SqeView { off: e.off, file_index: e.file_index, ..s })
        }),
{
    lemma_addr_len_cell(s.file_index, addr_len);
}

/// A send to an address reads back what a send does, and the destination.
pub proof fn lemma_round_trip_sendto(
    s: SqeView,
    sockfd: i32,
    buf: u64,
    nbytes: u32,
    flags: i32,
    addr: u64,
    addr_len: u16,
)
    ensures
        ({
            let e = s.prep_sendto(sockfd, buf, nbytes, flags, addr, addr_len);
            &&& e.opcode == IORING_OP_SEND
            &&& e.fd == sockfd
            &&& e.addr == buf
            &&& e.len == nbytes
            &&& e.op_flags as i32 == flags
            &&& e.off == addr
            &&& e.addr_len() == addr_len
        }),
{
    lemma_i32_cell(flags);
    lemma_addr_len_cell(s.file_index, addr_len);
}

/// A zero-copy send reads back what a send does, and its own flags from `ioprio`, as long
/// as they fit the 16 bits of that cell.
pub proof fn lemma_round_trip_send_zc(
    s: SqeView,
    sockfd: i32,
    buf: u64,
    nbytes: u32,
    flags: i32,
    zc_flags: u32,
)
    requires
        zc_flags <= 0xffff,
    ensures
        ({
            let e = s.prep_send_zc(sockfd, buf, nbytes, flags, zc_flags);
            &&& e.opcode == IORING_OP_SEND_ZC
            &&& e.flags == 0
            &&& e.fd == sockfd
            &&& e.addr == buf
            &&& e.len == nbytes
            &&& e.op_flags as i32 == flags
            &&& e.ioprio as u32 == zc_flags
        }),
{
    lemma_i32_cell(flags);
}

/// A zero-copy send on a registered buffer is a zero-copy send with the fixed-buffer bit
/// set in `ioprio`, and reads back the buffer's index as long as the index fits the 16 bits
/// of its cell.
pub proof fn lemma_round_trip_send_zc_fixed(
    s: SqeView,
    sockfd: i32,
    buf: u64,
    nbytes: u32,
    flags: i32,
    zc_flags: u32,
    buf_index: u32,
)
    requires
        buf_index <= 0xffff,
    ensures
        ({
            let e = s.prep_send_zc_fixed(sockfd, buf, nbytes, flags, zc_flags, buf_index);
            &&& e.opcode == IORING_OP_SEND_ZC
            &&& e.fd == sockfd
            &&& e.addr == buf
            &&& e.len == nbytes
            &&& e.op_flags as i32 == flags
            &&& e.ioprio == (zc_flags as u16) | (IORING_RECVSEND_FIXED_BUF as u16)
            &&& e.buf_index as u32 == buf_index
        }),
{
    lemma_i32_cell(flags);
}

/// A receive reads back the socket, the buffer, its length and the flags.
pub proof fn lemma_round_trip_recv(s: SqeView, sockfd: i32, buf: u64, nbytes: u32, flags: i32)
    ensures
        ({
            let e = s.prep_recv(sockfd, buf, nbytes, flags);
            &&& e.opcode == IORING_OP_RECV
            &&& e.flags == 0
            &&& e.ioprio == 0
            &&& e.fd == sockfd
            &&& e.addr == buf
            &&& e.len == nbytes
            &&& e.op_flags as i32 == flags
            &&& e.off == 0
        }),
{
    lemma_i32_cell(flags);
}

/// A multishot receive is a receive with the multishot bit in `ioprio`.
pub proof fn lemma_round_trip_recv_multishot(
    s: SqeView,
    sockfd: i32,
    buf: u64,
    nbytes: u32,
    flags: i32,
)
    ensures
        ({
            let e = s.prep_recv_multishot(sockfd, buf, nbytes, flags);
            &&& e == (SqeView { ioprio: IORING_RECV_MULTISHOT as u16, ..s.prep_recv(sockfd, buf, nbytes, flags) })
            &&& e.opcode == IORING_OP_RECV
            &&& e.addr == buf
            &&& e.len == nbytes
        }),
{
}

/// A message to a ring reads back the ring, the result and the token of the completion to
/// post, and the flags.
pub proof fn lemma_round_trip_msg_ring(s: SqeView, fd: i32, len: u32, data: u64, flags: u32)
    ensures
        ({
            let e = s.prep_msg_ring(fd, len, data, flags);
            &&& e.opcode == IORING_OP_MSG_RING
            &&& e.flags == 0
            &&& e.ioprio == 0
            &&& e.fd == fd
            &&& e.len == len
            &&& e.off == data
            &&& e.op_flags == flags
            &&& e.addr == 0
        }),
{
}

/// A message to a ring with completion flags reads those back from the cell of the file
/// index; its flags are the ones passed with the pass-flags bit set.
pub proof fn lemma_round_trip_msg_ring_cqe_flags(
    s: SqeView,
    fd: i32,
    len: u32,
    data: u64,
    flags: u32,
    cqe_flags: u32,
)
    ensures
        ({
            let e = s.prep_msg_ring_cqe_flags(fd, len, data, flags, cqe_flags);
            &&& e.opcode == IORING_OP_MSG_RING
            &&& e.flags == 0
            &&& e.ioprio == 0
            &&& e.fd == fd
            &&& e.len == len
            &&& e.off == data
            &&& e.op_flags == IORING_MSG_RING_FLAGS_PASS | flags
            &&& e.file_index == cqe_flags
        }),
{
}

/// Passing a descriptor to a ring reads back the ring, the descriptor, the token of the
/// completion to post, and the flags; the address cell holds the command.
pub proof fn lemma_round_trip_msg_ring_fd(
    s: SqeView,
    fd: i32,
    source_fd: i32,
    target_fd: i32,
    data: u64,
    flags: u32,
)
    ensures
        ({
            let e = s.prep_msg_ring_fd(fd, source_fd, target_fd, data, flags);
            &&& e.opcode == IORING_OP_MSG_RING
            &&& e.flags == 0
            &&& e.ioprio == 0
            &&& e.fd == fd
            &&& e.addr == IORING_MSG_SEND_FD as u64
            &&& e.len == 0
            &&& e.off == data
            &&& e.addr3 as i32 == source_fd
            &&& e.op_flags == flags
            &&& e.file_index == fixed_file_wire(direct_slot_signed(target_fd))
        }),
{
    lemma_i32_wide_cell(source_fd);
}

/// A socket creation reads back the domain from the descriptor, the type from the offset,
/// the protocol from the length, and the flags.
pub proof fn lemma_round_trip_socket(
    s: SqeView,
    domain: i32,
    socket_type: i32,
    protocol: i32,
    flags: u32,
)
    ensures
        ({
            let e = s.prep_socket(domain, socket_type, protocol, flags);
            &&& e.opcode == IORING_OP_SOCKET
            &&& e.flags == 0
            &&& e.ioprio == 0
            &&& e.fd == domain
            &&& e.off as i32 == socket_type
            &&& e.len as i32 == protocol
            &&& e.op_flags == flags
            &&& e.rw_flags() as u32 == flags
            &&& e.addr == 0
        }),
{
    lemma_i32_wide_cell(socket_type);
    lemma_i32_cell(protocol);
    lemma_u32_cell(flags);
}

/// The request to allocate a direct descriptor is handed to the shared modifier as the
/// sentinel less one, and stored as that plus one, by every way that leads to it: the
/// direct variants called with the sentinel and the variants that always allocate store
/// the same cell.
pub proof fn lemma_alloc_sentinel_wire(
    s: SqeView,
    fd: i32,
    addr: u64,
    addrlen: u64,
    flags: u32,
    path: u64,
    open_flags: i32,
    mode: u32,
    domain: i32,
    socket_type: i32,
    protocol: i32,
    source_fd: i32,
    data: u64,
)
    ensures
        direct_slot(IORING_FILE_INDEX_ALLOC as u32) == (IORING_FILE_INDEX_ALLOC - 1) as u32,
        direct_slot_signed(IORING_FILE_INDEX_ALLOC) == (IORING_FILE_INDEX_ALLOC - 1) as u32,
        s.prep_accept_direct(fd, addr, addrlen, flags, IORING_FILE_INDEX_ALLOC as u32).file_index
            == fixed_file_wire((IORING_FILE_INDEX_ALLOC - 1) as u32),
        s.prep_multishot_accept_direct(fd, addr, addrlen, flags).file_index == fixed_file_wire(
            (IORING_FILE_INDEX_ALLOC - 1) as u32,
        ),
        s.prep_openat_direct(fd, path, open_flags, mode, IORING_FILE_INDEX_ALLOC as u32).file_index
            == fixed_file_wire((IORING_FILE_INDEX_ALLOC - 1) as u32),
        s.prep_socket_direct(domain, socket_type, protocol, IORING_FILE_INDEX_ALLOC as u32, flags)
            == s.prep_socket_direct_alloc(domain, socket_type, protocol, flags),
        s.prep_socket_direct_alloc(domain, socket_type, protocol, flags).file_index
            == fixed_file_wire((IORING_FILE_INDEX_ALLOC - 1) as u32),
        s.prep_msg_ring_fd(fd, source_fd, IORING_FILE_INDEX_ALLOC, data, flags)
            == s.prep_msg_ring_fd_alloc(fd, source_fd, data, flags),
        s.prep_msg_ring_fd_alloc(fd, source_fd, data, flags).file_index == fixed_file_wire(
            (IORING_FILE_INDEX_ALLOC - 1) as u32,
        ),
        fixed_file_wire((IORING_FILE_INDEX_ALLOC - 1) as u32) == 0xffff_ffffu32,
{
    lemma_sentinel_cells();
}

/// The sentinel and its neighbour as unsigned cells.
proof fn lemma_sentinel_cells()
    ensures
        (-1i32) as u32 == 0xffff_ffffu32,
        (-2i32) as u32 == 0xffff_fffeu32,
        0xffff_ffffu32 as i32 == -1i32,
{
    assert((-1i32) as u32 == 0xffff_ffffu32) by (bit_vector);
    assert((-2i32) as u32 == 0xffff_fffeu32) by (bit_vector);
    assert(0xffff_ffffu32 as i32 == -1i32) by (bit_vector);
}

/// Any other table slot reads back from its cell as the cell less one.
pub proof fn lemma_direct_slot_round_trip(s: SqeView, file_index: u32)
    requires
        file_index < 0xffff_ffff,
    ensures
        direct_slot(file_index) == file_index,
        s.set_target_fixed_file(direct_slot(file_index)).file_index - 1 == file_index,
        s.prep_close_direct(file_index).file_index - 1 == file_index,
{
    assert(file_index as i32 != -1i32) by (bit_vector)
        requires
            file_index < 0xffff_ffffu32,
    ;
}

} // verus!
