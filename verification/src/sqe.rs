//! The submission queue entry and its encoders.
//!
//! An entry is one fixed record that every operation shares. Several of its cells are
//! unions in the kernel's layout; here each union is one cell that holds the value its
//! widest member reads, and the narrower or signed members are views of that value. An
//! encoder writes the cells that its operation means and leaves the others as they were,
//! so what a reused slot still holds from an earlier request is visible in the contract.
use crate::consts::{
    IORING_ACCEPT_MULTISHOT,
    IORING_ASYNC_CANCEL_FD,
    IORING_FILE_INDEX_ALLOC,
    IORING_MSG_RING_FLAGS_PASS,
    IORING_MSG_SEND_FD,
    IORING_OP_ACCEPT,
    IORING_OP_ASYNC_CANCEL,
    IORING_OP_CLOSE,
    IORING_OP_CONNECT,
    IORING_OP_FALLOCATE,
    IORING_OP_FILES_UPDATE,
    IORING_OP_FSYNC,
    IORING_OP_LINK_TIMEOUT,
    IORING_OP_MSG_RING,
    IORING_OP_NOP,
    IORING_OP_OPENAT,
    IORING_OP_POLL_ADD,
    IORING_OP_POLL_REMOVE,
    IORING_OP_READ,
    IORING_OP_READV,
    IORING_OP_READ_FIXED,
    IORING_OP_RECV,
    IORING_OP_RECVMSG,
    IORING_OP_SEND,
    IORING_OP_SENDMSG,
    IORING_OP_SENDMSG_ZC,
    IORING_OP_SEND_ZC,
    IORING_OP_SOCKET,
    IORING_OP_SPLICE,
    IORING_OP_TEE,
    IORING_OP_TIMEOUT,
    IORING_OP_TIMEOUT_REMOVE,
    IORING_OP_WRITE,
    IORING_OP_WRITEV,
    IORING_OP_WRITE_FIXED,
    IORING_POLL_ADD_MULTI,
    IORING_RECVSEND_FIXED_BUF,
    IORING_RECV_MULTISHOT,
    IORING_TIMEOUT_UPDATE,
};
use crate::host::address_of;
use crate::host::slice_address;
use crate::host::swap_bytes_u32;
use crate::host::to_le_u32;
use vstd::prelude::*;

verus! {

/// What an entry holds, cell by cell.
pub struct SqeView {
    pub opcode: u8,
    pub flags: u8,
    pub ioprio: u16,
    pub fd: i32,
    /// `off`, `addr2`.
    pub off: u64,
    /// `addr`, `splice_off_in`.
    pub addr: u64,
    pub len: u32,
    /// The operation's flags, whatever the operation calls them.
    pub op_flags: u32,
    pub user_data: u64,
    /// `buf_index`, `buf_group`.
    pub buf_index: u16,
    pub personality: u16,
    /// `file_index`, `splice_fd_in`, `addr_len`.
    pub file_index: u32,
    pub addr3: u64,
    pub pad2: u64,
}

/// One slot of the submission ring.
#[derive(Clone, Copy, Debug)]
pub struct IoUringSqe {
    opcode: u8,
    flags: u8,
    ioprio: u16,
    fd: i32,
    off: u64,
    addr: u64,
    len: u32,
    op_flags: u32,
    user_data: u64,
    buf_index: u16,
    personality: u16,
    file_index: u32,
    addr3: u64,
    pad2: u64,
}

impl View for IoUringSqe {
    type V = SqeView;

    closed spec fn view(&self) -> SqeView {
        SqeView {
            opcode: self.opcode,
            flags: self.flags,
            ioprio: self.ioprio,
            fd: self.fd,
            off: self.off,
            addr: self.addr,
            len: self.len,
            op_flags: self.op_flags,
            user_data: self.user_data,
            buf_index: self.buf_index,
            personality: self.personality,
            file_index: self.file_index,
            addr3: self.addr3,
            pad2: self.pad2,
        }
    }
}

/// An entry is what it holds: two that hold the same are the same.
pub proof fn lemma_sqe_is_its_view(a: IoUringSqe, b: IoUringSqe)
    requires
        a@ == b@,
    ensures
        a == b,
{
}

/// The table slot that a direct variant hands to the shared modifier: the request to
/// allocate one moves down by one, every other index passes.
pub open spec fn direct_slot(file_index: u32) -> u32 {
    if file_index as i32 == IORING_FILE_INDEX_ALLOC {
        (file_index - 1) as u32
    } else {
        file_index
    }
}

/// The same for an index that is passed signed, as message rings take it.
pub open spec fn direct_slot_signed(target_fd: i32) -> u32 {
    (if target_fd == IORING_FILE_INDEX_ALLOC {
        target_fd - 1
    } else {
        target_fd as int
    }) as u32
}

/// What the shared modifier stores for a table slot: the slot plus one, since zero means
/// that no direct descriptor is asked for.
pub open spec fn fixed_file_wire(slot: u32) -> u32 {
    slot.wrapping_add(1)
}

impl SqeView {
    /// The entry with every cell zero.
    pub open spec fn zeroed() -> SqeView {
        SqeView {
            opcode: 0,
            flags: 0,
            ioprio: 0,
            fd: 0,
            off: 0,
            addr: 0,
            len: 0,
            op_flags: 0,
            user_data: 0,
            buf_index: 0,
            personality: 0,
            file_index: 0,
            addr3: 0,
            pad2: 0,
        }
    }

    /// The operation flags as the read and write operations and `socket` read them.
    pub open spec fn rw_flags(self) -> i32 {
        self.op_flags as i32
    }

    /// The descriptor that `splice` and `tee` read from.
    pub open spec fn splice_fd_in(self) -> i32 {
        self.file_index as i32
    }

    /// The length of the destination address of a send.
    pub open spec fn addr_len(self) -> u16 {
        self.file_index as u16
    }

    /// The base of every encoder: operation, descriptor, the two address cells and the
    /// length are set, `flags` and `ioprio` are cleared.
    pub open spec fn prep_rw(self, op: u8, fd: i32, addr: u64, len: u32, offset: u64) -> SqeView {
        SqeView { opcode: op, flags: 0, ioprio: 0, fd, off: offset, addr, len, ..self }
    }

    pub open spec fn set_target_fixed_file(self, slot: u32) -> SqeView {
        SqeView { file_index: fixed_file_wire(slot), ..self }
    }

    pub open spec fn prep_splice(
        self,
        fd_in: i32,
        off_in: i64,
        fd_out: i32,
        off_out: i64,
        nbytes: u32,
        splice_flags: u32,
    ) -> SqeView {
        SqeView {
            addr: off_in as u64,
            file_index: fd_in as u32,
            op_flags: splice_flags,
            ..self.prep_rw(IORING_OP_SPLICE, fd_out, 0, nbytes, off_out as u64)
        }
    }

    pub open spec fn prep_tee(self, fd_in: i32, fd_out: i32, nbytes: u32, splice_flags: u32) -> SqeView {
        SqeView {
            file_index: fd_in as u32,
            op_flags: splice_flags,
            ..self.prep_rw(IORING_OP_TEE, fd_out, 0, nbytes, 0)
        }
    }

    /// A vectored read of `count` buffers described at `iovecs`.
    pub open spec fn prep_readv(self, fd: i32, iovecs: u64, count: u32, offset: u64) -> SqeView {
        self.prep_rw(IORING_OP_READV, fd, iovecs, count, offset)
    }

    pub open spec fn prep_readv2(self, fd: i32, iovecs: u64, count: u32, offset: u64, flags: i32) -> SqeView {
        SqeView { op_flags: flags as u32, ..self.prep_readv(fd, iovecs, count, offset) }
    }

    pub open spec fn prep_read_fixed(self, fd: i32, buf: u64, nbytes: u32, offset: u64, buf_index: i32) -> SqeView {
        SqeView {
            buf_index: buf_index as u16,
            ..self.prep_rw(IORING_OP_READ_FIXED, fd, buf, nbytes, offset)
        }
    }

    pub open spec fn prep_writev(self, fd: i32, iovecs: u64, count: u32, offset: u64) -> SqeView {
        self.prep_rw(IORING_OP_WRITEV, fd, iovecs, count, offset)
    }

    pub open spec fn prep_writev2(self, fd: i32, iovecs: u64, count: u32, offset: u64, flags: i32) -> SqeView {
        SqeView { op_flags: flags as u32, ..self.prep_writev(fd, iovecs, count, offset) }
    }

    pub open spec fn prep_write_fixed(self, fd: i32, buf: u64, nbytes: u32, offset: u64, buf_index: i32) -> SqeView {
        SqeView {
            buf_index: buf_index as u16,
            ..self.prep_rw(IORING_OP_WRITE_FIXED, fd, buf, nbytes, offset)
        }
    }

    pub open spec fn prep_recvmsg(self, fd: i32, msg: u64, flags: u32) -> SqeView {
        SqeView { op_flags: flags, ..self.prep_rw(IORING_OP_RECVMSG, fd, msg, 1, 0) }
    }

    pub open spec fn prep_recvmsg_multishot(self, fd: i32, msg: u64, flags: u32) -> SqeView {
        SqeView { ioprio: IORING_RECV_MULTISHOT as u16, ..self.prep_recvmsg(fd, msg, flags) }
    }

    pub open spec fn prep_sendmsg(self, fd: i32, msg: u64, flags: u32) -> SqeView {
        SqeView { op_flags: flags, ..self.prep_rw(IORING_OP_SENDMSG, fd, msg, 1, 0) }
    }

    /// A poll request whose event mask is already in the order the kernel reads it.
    pub open spec fn prep_poll_add(self, fd: i32, events: u32) -> SqeView {
        SqeView { op_flags: events, ..self.prep_rw(IORING_OP_POLL_ADD, fd, 0, 0, 0) }
    }

    pub open spec fn prep_poll_multishot(self, fd: i32, events: u32) -> SqeView {
        SqeView { len: IORING_POLL_ADD_MULTI, ..self.prep_poll_add(fd, events) }
    }

    pub open spec fn prep_poll_remove(self, user_data: u64) -> SqeView {
        self.prep_rw(IORING_OP_POLL_REMOVE, -1i32, user_data, 0, 0)
    }

    pub open spec fn prep_poll_update(self, old_user_data: u64, new_user_data: u64, events: u32, flags: u32) -> SqeView {
        SqeView {
            op_flags: events,
            ..self.prep_rw(IORING_OP_POLL_REMOVE, -1i32, old_user_data, flags, new_user_data)
        }
    }

    pub open spec fn prep_fsync(self, fd: i32, fsync_flags: u32) -> SqeView {
        SqeView { op_flags: fsync_flags, ..self.prep_rw(IORING_OP_FSYNC, fd, 0, 0, 0) }
    }

    pub open spec fn prep_nop(self) -> SqeView {
        self.prep_rw(IORING_OP_NOP, -1i32, 0, 0, 0)
    }

    pub open spec fn prep_timeout(self, ts: u64, count: u32, flags: u32) -> SqeView {
        SqeView { op_flags: flags, ..self.prep_rw(IORING_OP_TIMEOUT, -1i32, ts, 1, count as u64) }
    }

    pub open spec fn prep_timeout_remove(self, user_data: u64, flags: u32) -> SqeView {
        SqeView { op_flags: flags, ..self.prep_rw(IORING_OP_TIMEOUT_REMOVE, -1i32, user_data, 0, 0) }
    }

    pub open spec fn prep_timeout_update(self, ts: u64, user_data: u64, flags: u32) -> SqeView {
        SqeView {
            op_flags: flags | IORING_TIMEOUT_UPDATE,
            ..self.prep_rw(IORING_OP_TIMEOUT_REMOVE, -1i32, user_data, 0, ts)
        }
    }

    pub open spec fn prep_accept(self, fd: i32, addr: u64, addrlen: u64, flags: u32) -> SqeView {
        SqeView { op_flags: flags, ..self.prep_rw(IORING_OP_ACCEPT, fd, addr, 0, addrlen) }
    }

    pub open spec fn prep_accept_direct(self, fd: i32, addr: u64, addrlen: u64, flags: u32, file_index: u32) -> SqeView {
        self.prep_accept(fd, addr, addrlen, flags).set_target_fixed_file(direct_slot(file_index))
    }

    pub open spec fn prep_multishot_accept(self, fd: i32, addr: u64, addrlen: u64, flags: u32) -> SqeView {
        SqeView {
            ioprio: IORING_ACCEPT_MULTISHOT as u16,
            ..self.prep_accept(fd, addr, addrlen, flags)
        }
    }

    pub open spec fn prep_multishot_accept_direct(self, fd: i32, addr: u64, addrlen: u64, flags: u32) -> SqeView {
        self.prep_multishot_accept(fd, addr, addrlen, flags).set_target_fixed_file(
            (IORING_FILE_INDEX_ALLOC - 1) as u32,
        )
    }

    pub open spec fn prep_cancel64(self, user_data: u64, flags: i32) -> SqeView {
        SqeView {
            op_flags: flags as u32,
            ..self.prep_rw(IORING_OP_ASYNC_CANCEL, -1i32, user_data, 0, 0)
        }
    }

    pub open spec fn prep_cancel_fd(self, fd: i32, flags: u32) -> SqeView {
        SqeView {
            op_flags: flags | IORING_ASYNC_CANCEL_FD,
            ..self.prep_rw(IORING_OP_ASYNC_CANCEL, fd, 0, 0, 0)
        }
    }

    pub open spec fn prep_link_timeout(self, ts: u64, flags: u32) -> SqeView {
        SqeView { op_flags: flags, ..self.prep_rw(IORING_OP_LINK_TIMEOUT, -1i32, ts, 1, 0) }
    }

    pub open spec fn prep_connect(self, fd: i32, addr: u64, addrlen: u32) -> SqeView {
        self.prep_rw(IORING_OP_CONNECT, fd, addr, 0, addrlen as u64)
    }

    pub open spec fn prep_files_update(self, fds: u64, count: u32, offset: i32) -> SqeView {
        self.prep_rw(IORING_OP_FILES_UPDATE, -1i32, fds, count, offset as u64)
    }

    pub open spec fn prep_fallocate(self, fd: i32, mode: i32, offset: u64, len: u64) -> SqeView {
        self.prep_rw(IORING_OP_FALLOCATE, fd, len, mode as u32, offset)
    }

    pub open spec fn prep_openat(self, dfd: i32, path: u64, flags: i32, mode: u32) -> SqeView {
        SqeView { op_flags: flags as u32, ..self.prep_rw(IORING_OP_OPENAT, dfd, path, mode, 0) }
    }

    pub open spec fn prep_openat_direct(self, dfd: i32, path: u64, flags: i32, mode: u32, file_index: u32) -> SqeView {
        self.prep_openat(dfd, path, flags, mode).set_target_fixed_file(direct_slot(file_index))
    }

    pub open spec fn prep_close(self, fd: i32) -> SqeView {
        self.prep_rw(IORING_OP_CLOSE, fd, 0, 0, 0)
    }

    pub open spec fn prep_close_direct(self, file_index: u32) -> SqeView {
        self.prep_close(0).set_target_fixed_file(file_index)
    }

    pub open spec fn prep_read(self, fd: i32, buf: u64, nbytes: u32, offset: u64) -> SqeView {
        self.prep_rw(IORING_OP_READ, fd, buf, nbytes, offset)
    }

    pub open spec fn prep_write(self, fd: i32, buf: u64, nbytes: u32, offset: u64) -> SqeView {
        self.prep_rw(IORING_OP_WRITE, fd, buf, nbytes, offset)
    }

    pub open spec fn prep_send(self, sockfd: i32, buf: u64, nbytes: u32, flags: i32) -> SqeView {
        SqeView { op_flags: flags as u32, ..self.prep_rw(IORING_OP_SEND, sockfd, buf, nbytes, 0) }
    }

    /// The destination of a send: its address in `addr2`, its length in the low half of
    /// the cell that `file_index` shares, whose other half stays.
    pub open spec fn prep_send_set_addr(self, dest_addr: u64, addr_len: u16) -> SqeView {
        SqeView {
            off: dest_addr,
            file_index: (self.file_index & 0xffff_0000) | (addr_len as u32),
            ..self
        }
    }

    pub open spec fn prep_sendto(self, sockfd: i32, buf: u64, nbytes: u32, flags: i32, addr: u64, addr_len: u16) -> SqeView {
        self.prep_send(sockfd, buf, nbytes, flags).prep_send_set_addr(addr, addr_len)
    }

    pub open spec fn prep_send_zc(self, sockfd: i32, buf: u64, nbytes: u32, flags: i32, zc_flags: u32) -> SqeView {
        SqeView {
            op_flags: flags as u32,
            ioprio: zc_flags as u16,
            ..self.prep_rw(IORING_OP_SEND_ZC, sockfd, buf, nbytes, 0)
        }
    }

    pub open spec fn prep_send_zc_fixed(
        self,
        sockfd: i32,
        buf: u64,
        nbytes: u32,
        flags: i32,
        zc_flags: u32,
        buf_index: u32,
    ) -> SqeView {
        SqeView {
            ioprio: (zc_flags as u16) | (IORING_RECVSEND_FIXED_BUF as u16),
            buf_index: buf_index as u16,
            ..self.prep_send_zc(sockfd, buf, nbytes, flags, zc_flags)
        }
    }

    pub open spec fn prep_sendmsg_zc(self, fd: i32, msg: u64, flags: u32) -> SqeView {
        SqeView { opcode: IORING_OP_SENDMSG_ZC, ..self.prep_sendmsg(fd, msg, flags) }
    }

    pub open spec fn prep_recv(self, sockfd: i32, buf: u64, nbytes: u32, flags: i32) -> SqeView {
        SqeView { op_flags: flags as u32, ..self.prep_rw(IORING_OP_RECV, sockfd, buf, nbytes, 0) }
    }

    pub open spec fn prep_recv_multishot(self, sockfd: i32, buf: u64, nbytes: u32, flags: i32) -> SqeView {
        SqeView {
            ioprio: IORING_RECV_MULTISHOT as u16,
            ..self.prep_recv(sockfd, buf, nbytes, flags)
        }
    }

    pub open spec fn prep_msg_ring_cqe_flags(self, fd: i32, len: u32, data: u64, flags: u32, cqe_flags: u32) -> SqeView {
        SqeView {
            op_flags: IORING_MSG_RING_FLAGS_PASS | flags,
            file_index: cqe_flags,
            ..self.prep_rw(IORING_OP_MSG_RING, fd, 0, len, data)
        }
    }

    pub open spec fn prep_msg_ring(self, fd: i32, len: u32, data: u64, flags: u32) -> SqeView {
        SqeView { op_flags: flags, ..self.prep_rw(IORING_OP_MSG_RING, fd, 0, len, data) }
    }

    pub open spec fn prep_msg_ring_fd(self, fd: i32, source_fd: i32, target_fd: i32, data: u64, flags: u32) -> SqeView {
        SqeView {
            addr3: source_fd as u64,
            op_flags: flags,
            ..self.prep_rw(IORING_OP_MSG_RING, fd, IORING_MSG_SEND_FD as u64, 0, data)
        }.set_target_fixed_file(direct_slot_signed(target_fd))
    }

    pub open spec fn prep_msg_ring_fd_alloc(self, fd: i32, source_fd: i32, data: u64, flags: u32) -> SqeView {
        self.prep_msg_ring_fd(fd, source_fd, IORING_FILE_INDEX_ALLOC, data, flags)
    }

    pub open spec fn prep_socket(self, domain: i32, socket_type: i32, protocol: i32, flags: u32) -> SqeView {
        SqeView {
            op_flags: flags,
            ..self.prep_rw(IORING_OP_SOCKET, domain, 0, protocol as u32, socket_type as u64)
        }
    }

    pub open spec fn prep_socket_direct(self, domain: i32, socket_type: i32, protocol: i32, file_index: u32, flags: u32) -> SqeView {
        self.prep_socket(domain, socket_type, protocol, flags).set_target_fixed_file(
            direct_slot(file_index),
        )
    }

    pub open spec fn prep_socket_direct_alloc(self, domain: i32, socket_type: i32, protocol: i32, flags: u32) -> SqeView {
        self.prep_socket(domain, socket_type, protocol, flags).set_target_fixed_file(
            (IORING_FILE_INDEX_ALLOC - 1) as u32,
        )
    }
}

/// A signed 32-bit value and the unsigned cell that holds it are the same bits.
pub proof fn lemma_i32_cell(x: i32)
    ensures
        (x as u32) as i32 == x,
{
    assert((x as u32) as i32 == x) by (bit_vector);
}

/// An unsigned 32-bit value read as signed and stored again is the same cell.
pub proof fn lemma_u32_cell(x: u32)
    ensures
        (x as i32) as u32 == x,
{
    assert((x as i32) as u32 == x) by (bit_vector);
}

/// A signed 64-bit value and the unsigned cell that holds it are the same bits.
pub proof fn lemma_i64_cell(x: i64)
    ensures
        (x as u64) as i64 == x,
{
    assert((x as u64) as i64 == x) by (bit_vector);
}

/// A signed 32-bit value in an unsigned 64-bit cell reads back from its low half.
pub proof fn lemma_i32_wide_cell(x: i32)
    ensures
        (x as u64) as i32 == x,
{
    assert((x as u64) as i32 == x) by (bit_vector);
}

/// The length of a destination address reads back from the low half of its cell,
/// whatever the other half holds.
pub proof fn lemma_addr_len_cell(cell: u32, addr_len: u16)
    ensures
        (((cell & 0xffff_0000) | (addr_len as u32)) as u16) == addr_len,
{
    assert((((cell & 0xffff_0000u32) | (addr_len as u32)) as u16) == addr_len) by (bit_vector);
}

/// Setting bits in cleared flags leaves exactly those bits.
proof fn lemma_or_into_zero(bits: u16)
    ensures
        0u16 | bits == bits,
{
    assert(0u16 | bits == bits) by (bit_vector);
}

/// Only the all-ones index reads as the request to allocate.
proof fn lemma_alloc_is_all_ones(file_index: u32)
    ensures
        (file_index as i32 == IORING_FILE_INDEX_ALLOC) <==> file_index == 0xffff_ffffu32,
{
    assert((file_index as i32 == -1i32) <==> file_index == 0xffff_ffffu32) by (bit_vector);
}

impl IoUringSqe {
    /// An entry with every cell zero, as a freshly mapped ring holds them.
    pub fn zeroed() -> (sqe: IoUringSqe)
        ensures
            sqe@ == SqeView::zeroed(),
    {
        IoUringSqe {
            opcode: 0,
            flags: 0,
            ioprio: 0,
            fd: 0,
            off: 0,
            addr: 0,
            len: 0,
            op_flags: 0,
            user_data: 0,
            buf_index: 0,
            personality: 0,
            file_index: 0,
            addr3: 0,
            pad2: 0,
        }
    }

    /// The operation.
    pub fn opcode(&self) -> (opcode: u8)
        ensures
            opcode == self@.opcode,
    {
        self.opcode
    }

    /// The modifier flags of the request.
    pub fn flags(&self) -> (flags: u8)
        ensures
            flags == self@.flags,
    {
        self.flags
    }

    /// The priority, or the sub-flags that the operation keeps there.
    pub fn ioprio(&self) -> (ioprio: u16)
        ensures
            ioprio == self@.ioprio,
    {
        self.ioprio
    }

    /// The descriptor that the operation works on.
    pub fn fd(&self) -> (fd: i32)
        ensures
            fd == self@.fd,
    {
        self.fd
    }

    /// The offset, or the second address.
    pub fn off(&self) -> (off: u64)
        ensures
            off == self@.off,
    {
        self.off
    }

    /// The address, or the offset that `splice` reads from.
    pub fn addr(&self) -> (addr: u64)
        ensures
            addr == self@.addr,
    {
        self.addr
    }

    /// The length, or what the operation keeps there.
    pub fn len(&self) -> (len: u32)
        ensures
            len == self@.len,
    {
        self.len
    }

    /// The operation's flags, as every member of that union but `rw_flags` reads them.
    pub fn op_flags(&self) -> (op_flags: u32)
        ensures
            op_flags == self@.op_flags,
    {
        self.op_flags
    }

    /// The correlation token.
    pub fn user_data(&self) -> (user_data: u64)
        ensures
            user_data == self@.user_data,
    {
        self.user_data
    }

    /// The index of the registered buffer, or the id of the buffer group.
    pub fn buf_index(&self) -> (buf_index: u16)
        ensures
            buf_index == self@.buf_index,
    {
        self.buf_index
    }

    /// The credentials that the request runs under.
    pub fn personality(&self) -> (personality: u16)
        ensures
            personality == self@.personality,
    {
        self.personality
    }

    /// The table slot of a direct descriptor, plus one.
    pub fn file_index(&self) -> (file_index: u32)
        ensures
            file_index == self@.file_index,
    {
        self.file_index
    }

    /// The third address.
    pub fn addr3(&self) -> (addr3: u64)
        ensures
            addr3 == self@.addr3,
    {
        self.addr3
    }

    /// The operation's flags as the read and write operations read them.
    pub fn rw_flags(&self) -> (flags: i32)
        ensures
            flags == self@.rw_flags(),
    {
        #[verifier::truncate]
        (self.op_flags as i32)
    }

    /// The descriptor that `splice` and `tee` read from.
    pub fn splice_fd_in(&self) -> (fd_in: i32)
        ensures
            fd_in == self@.splice_fd_in(),
    {
        #[verifier::truncate]
        (self.file_index as i32)
    }

    /// The length of the destination address of a send.
    pub fn addr_len(&self) -> (addr_len: u16)
        ensures
            addr_len == self@.addr_len(),
    {
        #[verifier::truncate]
        (self.file_index as u16)
    }

    /// Replaces the request's modifier flags (fixed file, drain, link, hard link, async,
    /// buffer select, skip success) by `flags`.
    pub fn set_flags(&mut self, flags: u8)
        ensures
            final(self)@ == (SqeView { flags, ..old(self)@ }),
    {
        self.flags = flags;
    }

    /// Stores the address of `data` as the correlation token.
    pub fn set_data<T>(&mut self, data: &T)
        ensures
            final(self)@ == (SqeView { user_data: final(self)@.user_data, ..old(self)@ }),
    {
        self.user_data = address_of(data);
    }

    /// Stores `data` as the correlation token, which the completion hands back unchanged.
    pub fn set_data64(&mut self, data: u64)
        ensures
            final(self)@ == (SqeView { user_data: data, ..old(self)@ }),
    {
        self.user_data = data;
    }

    /// The base encoder on a plain address.
    pub fn prep_rw_addr(&mut self, op: u8, fd: i32, addr: u64, len: u32, offset: u64)
        ensures
            final(self)@ == old(self)@.prep_rw(op, fd, addr, len, offset),
    {
        self.opcode = op;
        self.flags = 0;
        self.ioprio = 0;
        self.fd = fd;
        self.off = offset;
        self.addr = addr;
        self.len = len;
    }

    /// The base encoder on an optional value: its address, or null for none.
    pub fn prep_rw<T>(&mut self, op: u8, fd: i32, addr: Option<&T>, len: u32, offset: u64)
        ensures
            final(self)@ == old(self)@.prep_rw(op, fd, final(self)@.addr, len, offset),
            addr is None ==> final(self)@.addr == 0,
    {
        let a: u64 = match addr {
            Some(value) => address_of(value),
            None => 0,
        };
        self.prep_rw_addr(op, fd, a, len, offset);
    }

    /// The base encoder on an optional buffer: its address and its element count, or null
    /// and zero for none. The count is cut to 32 bits.
    pub fn prep_rw_buf<T>(&mut self, op: u8, fd: i32, addr: Option<&[T]>, offset: u64)
        ensures
            final(self)@ == old(self)@.prep_rw(
                op,
                fd,
                final(self)@.addr,
                match addr {
                    Some(buf) => buf@.len() as u32,
                    None => 0,
                },
                offset,
            ),
            addr is None ==> final(self)@.addr == 0,
    {
        match addr {
            Some(buf) => {
                let a: u64 = slice_address(buf);
                let n: u32 = #[verifier::truncate]
                (buf.len() as u32);
                self.prep_rw_addr(op, fd, a, n, offset);
            },
            None => {
                self.prep_rw_addr(op, fd, 0, 0, offset);
            },
        }
    }

    /// The base encoder without a buffer.
    pub fn prep_rw_null(&mut self, op: u8, fd: i32, len: u32, offset: u64)
        ensures
            final(self)@ == old(self)@.prep_rw(op, fd, 0, len, offset),
    {
        self.prep_rw_addr(op, fd, 0, len, offset);
    }

    /// Splices `nbytes` bytes from `fd_in` at `off_in` to `fd_out` at `off_out`.
    pub fn prep_splice(&mut self, fd_in: i32, off_in: i64, fd_out: i32, off_out: i64, nbytes: u32, splice_flags: u32)
        ensures
            final(self)@ == old(self)@.prep_splice(fd_in, off_in, fd_out, off_out, nbytes, splice_flags),
    {
        self.prep_rw_null(IORING_OP_SPLICE, fd_out, nbytes, #[verifier::truncate] (off_out as u64));
        self.addr = #[verifier::truncate] (off_in as u64);
        self.file_index = #[verifier::truncate] (fd_in as u32);
        self.op_flags = splice_flags;
    }

    /// Duplicates `nbytes` bytes from `fd_in` to `fd_out`.
    pub fn prep_tee(&mut self, fd_in: i32, fd_out: i32, nbytes: u32, splice_flags: u32)
        ensures
            final(self)@ == old(self)@.prep_tee(fd_in, fd_out, nbytes, splice_flags),
    {
        self.prep_rw_null(IORING_OP_TEE, fd_out, nbytes, 0);
        self.addr = 0;
        self.file_index = #[verifier::truncate] (fd_in as u32);
        self.op_flags = splice_flags;
    }

    /// A vectored read from `fd` at `offset` into the buffers that `iovecs` describes.
    pub fn prep_readv(&mut self, fd: i32, iovecs: &[libc::iovec], offset: u64)
        ensures
            final(self)@ == old(self)@.prep_readv(fd, final(self)@.addr, iovecs@.len() as u32, offset),
    {
        self.prep_rw_buf(IORING_OP_READV, fd, Some(iovecs), offset)
    }

    /// A vectored read with per-request read flags.
    pub fn prep_readv2(&mut self, fd: i32, iovecs: &[libc::iovec], offset: u64, flags: i32)
        ensures
            final(self)@ == old(self)@.prep_readv2(
                fd,
                final(self)@.addr,
                iovecs@.len() as u32,
                offset,
                flags,
            ),
    {
        self.prep_readv(fd, iovecs, offset);
        self.op_flags = #[verifier::truncate] (flags as u32);
    }

    /// A read into `buf`, which lies in the registered buffer `buf_index`.
    pub fn prep_read_fixed(&mut self, fd: i32, buf: &mut [u8], offset: u64, buf_index: i32)
        ensures
            final(self)@ == old(self)@.prep_read_fixed(
                fd,
                final(self)@.addr,
                old(buf)@.len() as u32,
                offset,
                buf_index,
            ),
            final(buf)@ == old(buf)@,
    {
        self.prep_rw_buf(IORING_OP_READ_FIXED, fd, Some(&*buf), offset);
        self.buf_index = #[verifier::truncate] (buf_index as u16);
    }

    /// A vectored write to `fd` at `offset` from the buffers that `iovecs` describes.
    pub fn prep_writev(&mut self, fd: i32, iovecs: &[libc::iovec], offset: u64)
        ensures
            final(self)@ == old(self)@.prep_writev(fd, final(self)@.addr, iovecs@.len() as u32, offset),
    {
        self.prep_rw_buf(IORING_OP_WRITEV, fd, Some(iovecs), offset)
    }

    /// A vectored write with per-request write flags.
    pub fn prep_writev2(&mut self, fd: i32, iovecs: &[libc::iovec], offset: u64, flags: i32)
        ensures
            final(self)@ == old(self)@.prep_writev2(
                fd,
                final(self)@.addr,
                iovecs@.len() as u32,
                offset,
                flags,
            ),
    {
        self.prep_writev(fd, iovecs, offset);
        self.op_flags = #[verifier::truncate] (flags as u32);
    }

    /// A write from `buf`, which lies in the registered buffer `buf_index`.
    pub fn prep_write_fixed(&mut self, fd: i32, buf: &mut [u8], offset: u64, buf_index: i32)
        ensures
            final(self)@ == old(self)@.prep_write_fixed(
                fd,
                final(self)@.addr,
                old(buf)@.len() as u32,
                offset,
                buf_index,
            ),
            final(buf)@ == old(buf)@,
    {
        self.prep_rw_buf(IORING_OP_WRITE_FIXED, fd, Some(&*buf), offset);
        self.buf_index = #[verifier::truncate] (buf_index as u16);
    }

    /// Receives a message on `fd` as `msg` describes.
    pub fn prep_recvmsg(&mut self, fd: i32, msg: &mut libc::msghdr, flags: u32)
        ensures
            final(self)@ == old(self)@.prep_recvmsg(fd, final(self)@.addr, flags),
            *final(msg) == *old(msg),
    {
        self.prep_rw(IORING_OP_RECVMSG, fd, Some(&*msg), 1, 0);
        self.op_flags = flags;
    }

    /// Receives messages on `fd` for as long as the request stays armed.
    pub fn prep_recvmsg_multishot(&mut self, fd: i32, msg: &mut libc::msghdr, flags: u32)
        ensures
            final(self)@ == old(self)@.prep_recvmsg_multishot(fd, final(self)@.addr, flags),
            *final(msg) == *old(msg),
    {
        self.prep_recvmsg(fd, msg, flags);
        proof {
            lemma_or_into_zero(IORING_RECV_MULTISHOT as u16);
        }
        self.ioprio = self.ioprio | (IORING_RECV_MULTISHOT as u16);
    }

    /// Sends the message that `msg` describes on `fd`.
    pub fn prep_sendmsg(&mut self, fd: i32, msg: &libc::msghdr, flags: u32)
        ensures
            final(self)@ == old(self)@.prep_sendmsg(fd, final(self)@.addr, flags),
    {
        self.prep_rw(IORING_OP_SENDMSG, fd, Some(msg), 1, 0);
        self.op_flags = flags;
    }

    /// Polls `fd` once for the events of `events_le`, a mask already in the little-endian
    /// order in which the kernel reads it.
    pub fn prep_poll_add_le(&mut self, fd: i32, events_le: u32)
        ensures
            final(self)@ == old(self)@.prep_poll_add(fd, events_le),
    {
        self.prep_rw_null(IORING_OP_POLL_ADD, fd, 0, 0);
        self.op_flags = events_le;
    }

    /// Polls `fd` once for the events of `poll_mask`.
    ///
    /// The mask is stored little-endian whatever the byte order of the host: as it is on a
    /// little-endian host, byte-swapped on a big-endian one.
    pub fn prep_poll_add(&mut self, fd: i32, poll_mask: u32)
        ensures
            final(self)@ == old(self)@.prep_poll_add(fd, final(self)@.op_flags),
            final(self)@.op_flags == poll_mask || final(self)@.op_flags == swap_bytes_u32(poll_mask),
    {
        self.prep_poll_add_le(fd, to_le_u32(poll_mask));
    }

    /// Polls `fd` for the events of `poll_mask` again and again, until the request ends.
    pub fn prep_poll_multishot(&mut self, fd: i32, poll_mask: u32)
        ensures
            final(self)@ == old(self)@.prep_poll_multishot(fd, final(self)@.op_flags),
            final(self)@.op_flags == poll_mask || final(self)@.op_flags == swap_bytes_u32(poll_mask),
    {
        self.prep_poll_add(fd, poll_mask);
        self.len = IORING_POLL_ADD_MULTI;
    }

    /// Removes the poll request whose token is `user_data`.
    pub fn prep_poll_remove(&mut self, user_data: u64)
        ensures
            final(self)@ == old(self)@.prep_poll_remove(user_data),
    {
        self.prep_rw_null(IORING_OP_POLL_REMOVE, -1, 0, 0);
        self.addr = user_data;
    }

    /// Updates the poll request whose token is `old_user_data`, with a mask already in
    /// little-endian order.
    pub fn prep_poll_update_le(&mut self, old_user_data: u64, new_user_data: u64, events_le: u32, flags: u32)
        ensures
            final(self)@ == old(self)@.prep_poll_update(old_user_data, new_user_data, events_le, flags),
    {
        self.prep_rw_null(IORING_OP_POLL_REMOVE, -1, flags, new_user_data);
        self.addr = old_user_data;
        self.op_flags = events_le;
    }

    /// Updates the poll request whose token is `old_user_data`: `flags` says which of the
    /// new token and the new mask replace the old.
    pub fn prep_poll_update(&mut self, old_user_data: u64, new_user_data: u64, poll_mask: u32, flags: u32)
        ensures
            final(self)@ == old(self)@.prep_poll_update(
                old_user_data,
                new_user_data,
                final(self)@.op_flags,
                flags,
            ),
            final(self)@.op_flags == poll_mask || final(self)@.op_flags == swap_bytes_u32(poll_mask),
    {
        self.prep_poll_update_le(old_user_data, new_user_data, to_le_u32(poll_mask), flags);
    }

    /// Syncs `fd` to storage.
    pub fn prep_fsync(&mut self, fd: i32, fsync_flags: u32)
        ensures
            final(self)@ == old(self)@.prep_fsync(fd, fsync_flags),
    {
        self.prep_rw_null(IORING_OP_FSYNC, fd, 0, 0);
        self.op_flags = fsync_flags;
    }

    /// Does nothing, and completes.
    pub fn prep_nop(&mut self)
        ensures
            final(self)@ == old(self)@.prep_nop(),
    {
        self.prep_rw_null(IORING_OP_NOP, -1, 0, 0);
    }

    /// Arms a timeout of `ts` that also ends once `count` completions were posted.
    pub fn prep_timeout(&mut self, ts: &mut libc::timespec, count: u32, flags: u32)
        ensures
            final(self)@ == old(self)@.prep_timeout(final(self)@.addr, count, flags),
            *final(ts) == *old(ts),
    {
        self.prep_rw(IORING_OP_TIMEOUT, -1, Some(&*ts), 1, count as u64);
        self.op_flags = flags;
    }

    /// Removes the timeout whose token is `user_data`.
    pub fn prep_timeout_remove(&mut self, user_data: u64, flags: u32)
        ensures
            final(self)@ == old(self)@.prep_timeout_remove(user_data, flags),
    {
        self.prep_rw_null(IORING_OP_TIMEOUT_REMOVE, -1, 0, 0);
        self.addr = user_data;
        self.op_flags = flags;
    }

    /// Replaces the time of the timeout whose token is `user_data` by `ts`.
    pub fn prep_timeout_update(&mut self, ts: &mut libc::timespec, user_data: u64, flags: u32)
        ensures
            final(self)@ == old(self)@.prep_timeout_update(final(self)@.off, user_data, flags),
            *final(ts) == *old(ts),
    {
        let at: u64 = address_of(&*ts);
        self.prep_rw_null(IORING_OP_TIMEOUT_REMOVE, -1, 0, at);
        self.addr = user_data;
        self.op_flags = flags | IORING_TIMEOUT_UPDATE;
    }

    /// Accepts a connection on `fd`. The peer's address goes to `addr` and its length to
    /// `addrlen`, where they are given; a null address says that neither is wanted.
    pub fn prep_accept(
        &mut self,
        fd: i32,
        addr: Option<&mut libc::sockaddr>,
        addrlen: Option<&mut libc::socklen_t>,
        flags: u32,
    )
        ensures
            final(self)@ == old(self)@.prep_accept(fd, final(self)@.addr, final(self)@.off, flags),
            addr is None ==> final(self)@.addr == 0,
            addrlen is None ==> final(self)@.off == 0,
    {
        let len_at: u64 = match addrlen {
            Some(len) => address_of(&*len),
            None => 0,
        };
        match addr {
            Some(a) => self.prep_rw(IORING_OP_ACCEPT, fd, Some(&*a), 0, len_at),
            None => self.prep_rw_null(IORING_OP_ACCEPT, fd, 0, len_at),
        }
        self.op_flags = flags;
    }

    /// The shared modifier of the direct variants: asks that the new descriptor go to the
    /// table slot `file_index`. The slot is stored plus one, wrapping.
    pub fn io_uring_set_target_fixed_file(&mut self, file_index: u32)
        ensures
            final(self)@ == old(self)@.set_target_fixed_file(file_index),
    {
        self.file_index = file_index.wrapping_add(1);
    }

    /// Accepts a connection into the slot `file_index` of the registered file table, or
    /// into a slot of the kernel's choice where `file_index` is the request to allocate.
    pub fn prep_accept_direct(
        &mut self,
        fd: i32,
        addr: Option<&mut libc::sockaddr>,
        addrlen: Option<&mut libc::socklen_t>,
        flags: u32,
        file_index: u32,
    )
        ensures
            final(self)@ == old(self)@.prep_accept_direct(
                fd,
                final(self)@.addr,
                final(self)@.off,
                flags,
                file_index,
            ),
            addr is None ==> final(self)@.addr == 0,
            addrlen is None ==> final(self)@.off == 0,
    {
        self.prep_accept(fd, addr, addrlen, flags);
        let slot = direct_slot_of(file_index);
        self.io_uring_set_target_fixed_file(slot);
    }

    /// Accepts connections on `fd` for as long as the request stays armed.
    pub fn prep_multishot_accept(
        &mut self,
        fd: i32,
        addr: Option<&mut libc::sockaddr>,
        addrlen: Option<&mut libc::socklen_t>,
        flags: u32,
    )
        ensures
            final(self)@ == old(self)@.prep_multishot_accept(
                fd,
                final(self)@.addr,
                final(self)@.off,
                flags,
            ),
            addr is None ==> final(self)@.addr == 0,
            addrlen is None ==> final(self)@.off == 0,
    {
        self.prep_accept(fd, addr, addrlen, flags);
        proof {
            lemma_or_into_zero(IORING_ACCEPT_MULTISHOT as u16);
        }
        self.ioprio = self.ioprio | (IORING_ACCEPT_MULTISHOT as u16);
    }

    /// Accepts connections on `fd`, each into a table slot of the kernel's choice.
    pub fn prep_multishot_accept_direct(
        &mut self,
        fd: i32,
        addr: Option<&mut libc::sockaddr>,
        addrlen: Option<&mut libc::socklen_t>,
        flags: u32,
    )
        ensures
            final(self)@ == old(self)@.prep_multishot_accept_direct(
                fd,
                final(self)@.addr,
                final(self)@.off,
                flags,
            ),
            addr is None ==> final(self)@.addr == 0,
            addrlen is None ==> final(self)@.off == 0,
    {
        self.prep_multishot_accept(fd, addr, addrlen, flags);
        self.io_uring_set_target_fixed_file(#[verifier::truncate] ((IORING_FILE_INDEX_ALLOC - 1) as u32));
    }

    /// Cancels the request whose token is `user_data`.
    pub fn prep_cancel64(&mut self, user_data: u64, flags: i32)
        ensures
            final(self)@ == old(self)@.prep_cancel64(user_data, flags),
    {
        self.prep_rw_null(IORING_OP_ASYNC_CANCEL, -1, 0, 0);
        self.addr = user_data;
        self.op_flags = #[verifier::truncate] (flags as u32);
    }

    /// Cancels the request whose token is the address of `user_data`.
    pub fn prep_cancel<T>(&mut self, user_data: &T, flags: i32)
        ensures
            final(self)@ == old(self)@.prep_cancel64(final(self)@.addr, flags),
    {
        self.prep_cancel64(address_of(user_data), flags);
    }

    /// Cancels the request that was made on the descriptor `fd`.
    pub fn prep_cancel_fd(&mut self, fd: i32, flags: u32)
        ensures
            final(self)@ == old(self)@.prep_cancel_fd(fd, flags),
    {
        self.prep_rw_null(IORING_OP_ASYNC_CANCEL, fd, 0, 0);
        self.op_flags = flags | IORING_ASYNC_CANCEL_FD;
    }

    /// Arms a timeout of `ts` on the request that this one is linked to.
    pub fn prep_link_timeout(&mut self, ts: &mut libc::timespec, flags: u32)
        ensures
            final(self)@ == old(self)@.prep_link_timeout(final(self)@.addr, flags),
            *final(ts) == *old(ts),
    {
        self.prep_rw(IORING_OP_LINK_TIMEOUT, -1, Some(&*ts), 1, 0);
        self.op_flags = flags;
    }

    /// Connects `fd` to the address `addr` of length `addrlen`.
    pub fn prep_connect(&mut self, fd: i32, addr: &libc::sockaddr, addrlen: libc::socklen_t)
        ensures
            final(self)@ == old(self)@.prep_connect(fd, final(self)@.addr, addrlen),
    {
        self.prep_rw(IORING_OP_CONNECT, fd, Some(addr), 0, addrlen as u64);
    }

    /// Replaces registered files, from the table slot `offset` on, by the descriptors `fds`.
    pub fn prep_files_update(&mut self, fds: &mut [i32], offset: i32)
        ensures
            final(self)@ == old(self)@.prep_files_update(
                final(self)@.addr,
                old(fds)@.len() as u32,
                offset,
            ),
            final(fds)@ == old(fds)@,
    {
        self.prep_rw_buf(IORING_OP_FILES_UPDATE, -1, Some(&*fds), #[verifier::truncate] (offset as u64));
    }

    /// Allocates `len` bytes of `fd` from `offset` on, in the way `mode` says.
    pub fn prep_fallocate(&mut self, fd: i32, mode: i32, offset: u64, len: u64)
        ensures
            final(self)@ == old(self)@.prep_fallocate(fd, mode, offset, len),
    {
        self.prep_rw_null(IORING_OP_FALLOCATE, fd, #[verifier::truncate] (mode as u32), offset);
        self.addr = len;
    }

    /// Opens the file whose path, ended by a zero byte, is `path`, relative to `dfd`.
    pub fn prep_openat(&mut self, dfd: i32, path: &[u8], flags: i32, mode: libc::mode_t)
        ensures
            final(self)@ == old(self)@.prep_openat(dfd, final(self)@.addr, flags, mode),
    {
        let at: u64 = slice_address(path);
        self.prep_rw_addr(IORING_OP_OPENAT, dfd, at, mode, 0);
        self.op_flags = #[verifier::truncate] (flags as u32);
    }

    /// Opens a file into the slot `file_index` of the registered file table, or into a
    /// slot of the kernel's choice where `file_index` is the request to allocate.
    pub fn prep_openat_direct(&mut self, dfd: i32, path: &[u8], flags: i32, mode: libc::mode_t, file_index: u32)
        ensures
            final(self)@ == old(self)@.prep_openat_direct(
                dfd,
                final(self)@.addr,
                flags,
                mode,
                file_index,
            ),
    {
        self.prep_openat(dfd, path, flags, mode);
        let slot = direct_slot_of(file_index);
        self.io_uring_set_target_fixed_file(slot);
    }

    /// Closes `fd`.
    pub fn prep_close(&mut self, fd: i32)
        ensures
            final(self)@ == old(self)@.prep_close(fd),
    {
        self.prep_rw_null(IORING_OP_CLOSE, fd, 0, 0);
    }

    /// Closes the descriptor in the slot `file_index` of the registered file table.
    pub fn prep_close_direct(&mut self, file_index: u32)
        ensures
            final(self)@ == old(self)@.prep_close_direct(file_index),
    {
        self.prep_close(0);
        self.io_uring_set_target_fixed_file(file_index);
    }

    /// Reads from `fd` at `offset` until `buf` is full.
    pub fn prep_read(&mut self, fd: i32, buf: &mut [u8], offset: u64)
        ensures
            final(self)@ == old(self)@.prep_read(fd, final(self)@.addr, old(buf)@.len() as u32, offset),
            final(buf)@ == old(buf)@,
    {
        self.prep_rw_buf(IORING_OP_READ, fd, Some(&*buf), offset);
    }

    /// Writes all of `buf` to `fd` at `offset`.
    pub fn prep_write(&mut self, fd: i32, buf: &[u8], offset: u64)
        ensures
            final(self)@ == old(self)@.prep_write(fd, final(self)@.addr, buf@.len() as u32, offset),
    {
        self.prep_rw_buf(IORING_OP_WRITE, fd, Some(buf), offset);
    }

    /// Sends `buf` on the socket `sockfd`.
    pub fn prep_send(&mut self, sockfd: i32, buf: &[u8], flags: i32)
        ensures
            final(self)@ == old(self)@.prep_send(sockfd, final(self)@.addr, buf@.len() as u32, flags),
    {
        self.prep_rw_buf(IORING_OP_SEND, sockfd, Some(buf), 0);
        self.op_flags = #[verifier::truncate] (flags as u32);
    }

    /// Names the destination of a send that is already encoded.
    pub fn prep_send_set_addr(&mut self, dest_addr: &libc::sockaddr, addr_len: u16)
        ensures
            final(self)@ == old(self)@.prep_send_set_addr(final(self)@.off, addr_len),
    {
        self.off = address_of(dest_addr);
        self.file_index = (self.file_index & 0xffff_0000) | (addr_len as u32);
    }

    /// Sends `buf` on the socket `sockfd` to the address `addr` of length `addr_len`.
    pub fn prep_sendto(&mut self, sockfd: i32, buf: &mut [u8], flags: i32, addr: &libc::sockaddr, addr_len: u16)
        ensures
            final(self)@ == old(self)@.prep_sendto(
                sockfd,
                final(self)@.addr,
                old(buf)@.len() as u32,
                flags,
                final(self)@.off,
                addr_len,
            ),
            final(buf)@ == old(buf)@,
    {
        self.prep_send(sockfd, &*buf, flags);
        self.prep_send_set_addr(addr, addr_len);
    }

    /// Sends `buf` on the socket `sockfd` without copying it.
    pub fn prep_send_zc(&mut self, sockfd: i32, buf: &mut [u8], flags: i32, zc_flags: u32)
        ensures
            final(self)@ == old(self)@.prep_send_zc(
                sockfd,
                final(self)@.addr,
                old(buf)@.len() as u32,
                flags,
                zc_flags,
            ),
            final(buf)@ == old(buf)@,
    {
        self.prep_rw_buf(IORING_OP_SEND_ZC, sockfd, Some(&*buf), 0);
        self.op_flags = #[verifier::truncate] (flags as u32);
        self.ioprio = #[verifier::truncate] (zc_flags as u16);
    }

    /// Sends `buf`, which lies in the registered buffer `buf_index`, without copying it.
    pub fn prep_send_zc_fixed(&mut self, sockfd: i32, buf: &mut [u8], flags: i32, zc_flags: u32, buf_index: u32)
        ensures
            final(self)@ == old(self)@.prep_send_zc_fixed(
                sockfd,
                final(self)@.addr,
                old(buf)@.len() as u32,
                flags,
                zc_flags,
                buf_index,
            ),
            final(buf)@ == old(buf)@,
    {
        self.prep_send_zc(sockfd, buf, flags, zc_flags);
        self.ioprio = self.ioprio | (IORING_RECVSEND_FIXED_BUF as u16);
        self.buf_index = #[verifier::truncate] (buf_index as u16);
    }

    /// Sends the message that `msg` describes on `fd` without copying it.
    pub fn prep_sendmsg_zc(&mut self, fd: i32, msg: &libc::msghdr, flags: u32)
        ensures
            final(self)@ == old(self)@.prep_sendmsg_zc(fd, final(self)@.addr, flags),
    {
        self.prep_sendmsg(fd, msg, flags);
        self.opcode = IORING_OP_SENDMSG_ZC;
    }

    /// Receives from the socket `sockfd` into `buf`.
    pub fn prep_recv(&mut self, sockfd: i32, buf: &mut [u8], flags: i32)
        ensures
            final(self)@ == old(self)@.prep_recv(
                sockfd,
                final(self)@.addr,
                old(buf)@.len() as u32,
                flags,
            ),
            final(buf)@ == old(buf)@,
    {
        self.prep_rw_buf(IORING_OP_RECV, sockfd, Some(&*buf), 0);
        self.op_flags = #[verifier::truncate] (flags as u32);
    }

    /// Receives from the socket `sockfd` for as long as the request stays armed.
    pub fn prep_recv_multishot(&mut self, sockfd: i32, buf: &mut [u8], flags: i32)
        ensures
            final(self)@ == old(self)@.prep_recv_multishot(
                sockfd,
                final(self)@.addr,
                old(buf)@.len() as u32,
                flags,
            ),
            final(buf)@ == old(buf)@,
    {
        self.prep_recv(sockfd, buf, flags);
        proof {
            lemma_or_into_zero(IORING_RECV_MULTISHOT as u16);
        }
        self.ioprio = self.ioprio | (IORING_RECV_MULTISHOT as u16);
    }

    /// Posts a completion with result `len` and token `data` on the ring `fd`, and passes
    /// `cqe_flags` on as its flags.
    pub fn prep_msg_ring_cqe_flags(&mut self, fd: i32, len: u32, data: u64, flags: u32, cqe_flags: u32)
        ensures
            final(self)@ == old(self)@.prep_msg_ring_cqe_flags(fd, len, data, flags, cqe_flags),
    {
        self.prep_rw_null(IORING_OP_MSG_RING, fd, len, data);
        self.op_flags = IORING_MSG_RING_FLAGS_PASS | flags;
        self.file_index = cqe_flags;
    }

    /// Posts a completion with result `len` and token `data` on the ring `fd`.
    pub fn prep_msg_ring(&mut self, fd: i32, len: u32, data: u64, flags: u32)
        ensures
            final(self)@ == old(self)@.prep_msg_ring(fd, len, data, flags),
    {
        self.prep_rw_null(IORING_OP_MSG_RING, fd, len, data);
        self.op_flags = flags;
    }

    /// Passes the registered descriptor `source_fd` to the ring `fd`, into the slot
    /// `target_fd` of its file table, or into a slot of the kernel's choice where
    /// `target_fd` is the request to allocate; `data` is the token of the completion there.
    pub fn prep_msg_ring_fd(&mut self, fd: i32, source_fd: i32, target_fd: i32, data: u64, flags: u32)
        ensures
            final(self)@ == old(self)@.prep_msg_ring_fd(fd, source_fd, target_fd, data, flags),
    {
        self.prep_rw_addr(IORING_OP_MSG_RING, fd, IORING_MSG_SEND_FD as u64, 0, data);
        self.addr3 = #[verifier::truncate] (source_fd as u64);
        let target_fd = if target_fd == IORING_FILE_INDEX_ALLOC {
            target_fd - 1
        } else {
            target_fd
        };
        self.io_uring_set_target_fixed_file(#[verifier::truncate] (target_fd as u32));
        self.op_flags = flags;
    }

    /// Passes the registered descriptor `source_fd` to the ring `fd`, into a slot of the
    /// kernel's choice.
    pub fn prep_msg_ring_fd_alloc(&mut self, fd: i32, source_fd: i32, data: u64, flags: u32)
        ensures
            final(self)@ == old(self)@.prep_msg_ring_fd_alloc(fd, source_fd, data, flags),
    {
        self.prep_msg_ring_fd(fd, source_fd, IORING_FILE_INDEX_ALLOC, data, flags);
    }

    /// Creates a socket.
    pub fn prep_socket(&mut self, domain: i32, socket_type: i32, protocol: i32, flags: u32)
        ensures
            final(self)@ == old(self)@.prep_socket(domain, socket_type, protocol, flags),
    {
        self.prep_rw_null(
            IORING_OP_SOCKET,
            domain,
            #[verifier::truncate] (protocol as u32),
            #[verifier::truncate] (socket_type as u64),
        );
        self.op_flags = flags;
    }

    /// Creates a socket in the slot `file_index` of the registered file table, or in a
    /// slot of the kernel's choice where `file_index` is the request to allocate.
    pub fn prep_socket_direct(&mut self, domain: i32, socket_type: i32, protocol: i32, file_index: u32, flags: u32)
        ensures
            final(self)@ == old(self)@.prep_socket_direct(
                domain,
                socket_type,
                protocol,
                file_index,
                flags,
            ),
    {
        self.prep_socket(domain, socket_type, protocol, flags);
        let slot = direct_slot_of(file_index);
        self.io_uring_set_target_fixed_file(slot);
    }

    /// Creates a socket in a table slot of the kernel's choice.
    pub fn prep_socket_direct_alloc(&mut self, domain: i32, socket_type: i32, protocol: i32, flags: u32)
        ensures
            final(self)@ == old(self)@.prep_socket_direct_alloc(domain, socket_type, protocol, flags),
    {
        self.prep_socket(domain, socket_type, protocol, flags);
        self.io_uring_set_target_fixed_file(#[verifier::truncate] ((IORING_FILE_INDEX_ALLOC - 1) as u32));
    }
}

/// The table slot that a direct variant hands to the shared modifier.
fn direct_slot_of(file_index: u32) -> (slot: u32)
    ensures
        slot == direct_slot(file_index),
{
    proof {
        lemma_alloc_is_all_ones(file_index);
    }
    if #[verifier::truncate] (file_index as i32) == IORING_FILE_INDEX_ALLOC {
        file_index - 1
    } else {
        file_index
    }
}

/// `libc::iovec`, one buffer of a vectored transfer. Its value is never read here: the
/// encoders store where it lies.
#[verifier::external_type_specification]
#[verifier::external_body]
pub struct ExIovec(libc::iovec);

/// `libc::msghdr`, the header of a message. Its value is never read here.
#[verifier::external_type_specification]
#[verifier::external_body]
pub struct ExMsghdr(libc::msghdr);

/// `libc::sockaddr`, a socket address. Its value is never read here.
#[verifier::external_type_specification]
#[verifier::external_body]
pub struct ExSockaddr(libc::sockaddr);

/// `libc::timespec`, a time. Its value is never read here.
#[verifier::external_type_specification]
#[verifier::external_body]
pub struct ExTimespec(libc::timespec);

} // verus!
