//! The encoders as free functions on a slot, for callers that hold entries by reference.
use crate::host::swap_bytes_u32;
use crate::sqe::IoUringSqe;
use crate::sqe::SqeView;
use vstd::prelude::*;

verus! {

/// Replaces the request's modifier flags (fixed file, drain, link, hard link, async,
/// buffer select, skip success) by `flags`.
pub fn io_uring_sqe_set_flags(sqe: &mut IoUringSqe, flags: u32)
    ensures
        final(sqe)@ == (SqeView { flags: flags as u8, ..old(sqe)@ }),
{
    sqe.set_flags(#[verifier::truncate] (flags as u8));
}

/// Stores the address of `data` as the correlation token.
pub fn io_uring_sqe_set_data<T>(sqe: &mut IoUringSqe, data: &T)
    ensures
        final(sqe)@ == (SqeView { user_data: final(sqe)@.user_data, ..old(sqe)@ }),
{
    sqe.set_data(data);
}

/// Stores `data` as the correlation token, which the completion hands back unchanged.
pub fn io_uring_sqe_set_data64(sqe: &mut IoUringSqe, data: u64)
    ensures
        final(sqe)@ == (SqeView { user_data: data, ..old(sqe)@ }),
{
    sqe.set_data64(data);
}

/// The base encoder on an optional value: its address, or null for none.
pub fn io_uring_prep_rw<T>(
    op: u32,
    sqe: &mut IoUringSqe,
    fd: i32,
    addr: Option<&T>,
    len: u32,
    offset: u64,
)
    ensures
        final(sqe)@ == old(sqe)@.prep_rw(op as u8, fd, final(sqe)@.addr, len, offset),
        addr is None ==> final(sqe)@.addr == 0,
{
    sqe.prep_rw(#[verifier::truncate] (op as u8), fd, addr, len, offset);
}

/// The base encoder on an optional buffer: its address and its element count, or null
/// and zero for none. The count is cut to 32 bits.
pub fn io_uring_prep_rw_buf<T>(
    op: u32,
    sqe: &mut IoUringSqe,
    fd: i32,
    addr: Option<&[T]>,
    offset: u64,
)
    ensures
        final(sqe)@ == old(sqe)@.prep_rw(
            op as u8,
            fd,
            final(sqe)@.addr,
            match addr {
                Some(buf) => buf@.len() as u32,
                None => 0,
            },
            offset,
        ),
        addr is None ==> final(sqe)@.addr == 0,
{
    sqe.prep_rw_buf(#[verifier::truncate] (op as u8), fd, addr, offset);
}

/// The base encoder without a buffer.
pub fn io_uring_prep_rw_null(op: u32, sqe: &mut IoUringSqe, fd: i32, len: u32, offset: u64)
    ensures
        final(sqe)@ == old(sqe)@.prep_rw(op as u8, fd, 0, len, offset),
{
    sqe.prep_rw_null(#[verifier::truncate] (op as u8), fd, len, offset);
}

/// Splices `nbytes` bytes from `fd_in` at `off_in` to `fd_out` at `off_out`.
pub fn io_uring_prep_splice(
    sqe: &mut IoUringSqe,
    fd_in: i32,
    off_in: i64,
    fd_out: i32,
    off_out: i64,
    nbytes: u32,
    splice_flags: u32,
)
    ensures
        final(sqe)@ == old(sqe)@.prep_splice(fd_in, off_in, fd_out, off_out, nbytes, splice_flags),
{
    sqe.prep_splice(fd_in, off_in, fd_out, off_out, nbytes, splice_flags);
}

/// Duplicates `nbytes` bytes from `fd_in` to `fd_out`.
pub fn io_uring_prep_tee(
    sqe: &mut IoUringSqe,
    fd_in: i32,
    fd_out: i32,
    nbytes: u32,
    splice_flags: u32,
)
    ensures
        final(sqe)@ == old(sqe)@.prep_tee(fd_in, fd_out, nbytes, splice_flags),
{
    sqe.prep_tee(fd_in, fd_out, nbytes, splice_flags);
}

/// A vectored read from `fd` at `offset` into the buffers that `iovecs` describes.
pub fn io_uring_prep_readv(sqe: &mut IoUringSqe, fd: i32, iovecs: &[libc::iovec], offset: u64)
    ensures
        final(sqe)@ == old(sqe)@.prep_readv(fd, final(sqe)@.addr, iovecs@.len() as u32, offset),
{
    sqe.prep_readv(fd, iovecs, offset);
}

/// A vectored read with per-request read flags.
pub fn io_uring_prep_readv2(
    sqe: &mut IoUringSqe,
    fd: i32,
    iovecs: &[libc::iovec],
    offset: u64,
    flags: i32,
)
    ensures
        final(sqe)@ == old(sqe)@.prep_readv2(
            fd,
            final(sqe)@.addr,
            iovecs@.len() as u32,
            offset,
            flags,
        ),
{
    sqe.prep_readv2(fd, iovecs, offset, flags);
}

/// A read into `buf`, which lies in the registered buffer `buf_index`.
pub fn io_uring_prep_read_fixed(
    sqe: &mut IoUringSqe,
    fd: i32,
    buf: &mut [u8],
    offset: u64,
    buf_index: i32,
)
    ensures
        final(sqe)@ == old(sqe)@.prep_read_fixed(
            fd,
            final(sqe)@.addr,
            old(buf)@.len() as u32,
            offset,
            buf_index,
        ),
        final(buf)@ == old(buf)@,
{
    sqe.prep_read_fixed(fd, buf, offset, buf_index);
}

/// A vectored write to `fd` at `offset` from the buffers that `iovecs` describes.
pub fn io_uring_prep_writev(sqe: &mut IoUringSqe, fd: i32, iovecs: &[libc::iovec], offset: u64)
    ensures
        final(sqe)@ == old(sqe)@.prep_writev(fd, final(sqe)@.addr, iovecs@.len() as u32, offset),
{
    sqe.prep_writev(fd, iovecs, offset);
}

/// A vectored write with per-request write flags.
pub fn io_uring_prep_writev2(
    sqe: &mut IoUringSqe,
    fd: i32,
    iovecs: &[libc::iovec],
    offset: u64,
    flags: i32,
)
    ensures
        final(sqe)@ == old(sqe)@.prep_writev2(
            fd,
            final(sqe)@.addr,
            iovecs@.len() as u32,
            offset,
            flags,
        ),
{
    sqe.prep_writev2(fd, iovecs, offset, flags);
}

/// A write from `buf`, which lies in the registered buffer `buf_index`.
pub fn io_uring_prep_write_fixed(
    sqe: &mut IoUringSqe,
    fd: i32,
    buf: &mut [u8],
    offset: u64,
    buf_index: i32,
)
    ensures
        final(sqe)@ == old(sqe)@.prep_write_fixed(
            fd,
            final(sqe)@.addr,
            old(buf)@.len() as u32,
            offset,
            buf_index,
        ),
        final(buf)@ == old(buf)@,
{
    sqe.prep_write_fixed(fd, buf, offset, buf_index);
}

/// Receives a message on `fd` as `msg` describes.
pub fn io_uring_prep_recvmsg(sqe: &mut IoUringSqe, fd: i32, msg: &mut libc::msghdr, flags: u32)
    ensures
        final(sqe)@ == old(sqe)@.prep_recvmsg(fd, final(sqe)@.addr, flags),
        *final(msg) == *old(msg),
{
    sqe.prep_recvmsg(fd, msg, flags);
}

/// Receives messages on `fd` for as long as the request stays armed.
pub fn io_uring_prep_recvmsg_multishot(
    sqe: &mut IoUringSqe,
    fd: i32,
    msg: &mut libc::msghdr,
    flags: u32,
)
    ensures
        final(sqe)@ == old(sqe)@.prep_recvmsg_multishot(fd, final(sqe)@.addr, flags),
        *final(msg) == *old(msg),
{
    sqe.prep_recvmsg_multishot(fd, msg, flags);
}

/// Sends the message that `msg` describes on `fd`.
pub fn io_uring_prep_sendmsg(sqe: &mut IoUringSqe, fd: i32, msg: &libc::msghdr, flags: u32)
    ensures
        final(sqe)@ == old(sqe)@.prep_sendmsg(fd, final(sqe)@.addr, flags),
{
    sqe.prep_sendmsg(fd, msg, flags);
}

/// Polls `fd` once for the events of `poll_mask`.
///
/// The mask is stored little-endian whatever the byte order of the host: as it is on a
/// little-endian host, byte-swapped on a big-endian one.
pub fn io_uring_prep_poll_add(sqe: &mut IoUringSqe, fd: i32, poll_mask: u32)
    ensures
        final(sqe)@ == old(sqe)@.prep_poll_add(fd, final(sqe)@.op_flags),
        final(sqe)@.op_flags == poll_mask || final(sqe)@.op_flags == swap_bytes_u32(poll_mask),
{
    sqe.prep_poll_add(fd, poll_mask);
}

/// Polls `fd` for the events of `poll_mask` again and again, until the request ends.
pub fn io_uring_prep_poll_multishot(sqe: &mut IoUringSqe, fd: i32, poll_mask: u32)
    ensures
        final(sqe)@ == old(sqe)@.prep_poll_multishot(fd, final(sqe)@.op_flags),
        final(sqe)@.op_flags == poll_mask || final(sqe)@.op_flags == swap_bytes_u32(poll_mask),
{
    sqe.prep_poll_multishot(fd, poll_mask);
}

/// Removes the poll request whose token is `user_data`.
pub fn io_uring_prep_poll_remove(sqe: &mut IoUringSqe, user_data: u64)
    ensures
        final(sqe)@ == old(sqe)@.prep_poll_remove(user_data),
{
    sqe.prep_poll_remove(user_data);
}

/// Updates the poll request whose token is `old_user_data`: `flags` says which of the
/// new token and the new mask replace the old.
pub fn io_uring_prep_poll_update(
    sqe: &mut IoUringSqe,
    old_user_data: u64,
    new_user_data: u64,
    poll_mask: u32,
    flags: u32,
)
    ensures
        final(sqe)@ == old(sqe)@.prep_poll_update(
            old_user_data,
            new_user_data,
            final(sqe)@.op_flags,
            flags,
        ),
        final(sqe)@.op_flags == poll_mask || final(sqe)@.op_flags == swap_bytes_u32(poll_mask),
{
    sqe.prep_poll_update(old_user_data, new_user_data, poll_mask, flags);
}

/// Syncs `fd` to storage.
pub fn io_uring_prep_fsync(sqe: &mut IoUringSqe, fd: i32, fsync_flags: u32)
    ensures
        final(sqe)@ == old(sqe)@.prep_fsync(fd, fsync_flags),
{
    sqe.prep_fsync(fd, fsync_flags);
}

/// Does nothing, and completes.
pub fn io_uring_prep_nop(sqe: &mut IoUringSqe)
    ensures
        final(sqe)@ == old(sqe)@.prep_nop(),
{
    sqe.prep_nop();
}

/// Arms a timeout of `ts` that also ends once `count` completions were posted.
pub fn io_uring_prep_timeout(sqe: &mut IoUringSqe, ts: &mut libc::timespec, count: u32, flags: u32)
    ensures
        final(sqe)@ == old(sqe)@.prep_timeout(final(sqe)@.addr, count, flags),
        *final(ts) == *old(ts),
{
    sqe.prep_timeout(ts, count, flags);
}

/// Removes the timeout whose token is `user_data`.
pub fn io_uring_prep_timeout_remove(sqe: &mut IoUringSqe, user_data: u64, flags: u32)
    ensures
        final(sqe)@ == old(sqe)@.prep_timeout_remove(user_data, flags),
{
    sqe.prep_timeout_remove(user_data, flags);
}

/// Replaces the time of the timeout whose token is `user_data` by `ts`.
pub fn io_uring_prep_timeout_update(
    sqe: &mut IoUringSqe,
    ts: &mut libc::timespec,
    user_data: u64,
    flags: u32,
)
    ensures
        final(sqe)@ == old(sqe)@.prep_timeout_update(final(sqe)@.off, user_data, flags),
        *final(ts) == *old(ts),
{
    sqe.prep_timeout_update(ts, user_data, flags);
}

/// Accepts a connection on `fd`. The peer's address goes to `addr` and its length to
/// `addrlen`, where they are given; a null address says that neither is wanted.
pub fn io_uring_prep_accept(
    sqe: &mut IoUringSqe,
    fd: i32,
    addr: Option<&mut libc::sockaddr>,
    addrlen: Option<&mut libc::socklen_t>,
    flags: u32,
)
    ensures
        final(sqe)@ == old(sqe)@.prep_accept(fd, final(sqe)@.addr, final(sqe)@.off, flags),
        addr is None ==> final(sqe)@.addr == 0,
        addrlen is None ==> final(sqe)@.off == 0,
{
    sqe.prep_accept(fd, addr, addrlen, flags);
}

/// The shared modifier of the direct variants: asks that the new descriptor go to the
/// table slot `file_index`. The slot is stored plus one, wrapping.
pub fn io_uring_set_target_fixed_file(sqe: &mut IoUringSqe, file_index: u32)
    ensures
        final(sqe)@ == old(sqe)@.set_target_fixed_file(file_index),
{
    sqe.io_uring_set_target_fixed_file(file_index);
}

/// Accepts a connection into the slot `file_index` of the registered file table, or
/// into a slot of the kernel's choice where `file_index` is the request to allocate.
pub fn io_uring_prep_accept_direct(
    sqe: &mut IoUringSqe,
    fd: i32,
    addr: Option<&mut libc::sockaddr>,
    addrlen: Option<&mut libc::socklen_t>,
    flags: u32,
    file_index: u32,
)
    ensures
        final(sqe)@ == old(sqe)@.prep_accept_direct(
            fd,
            final(sqe)@.addr,
            final(sqe)@.off,
            flags,
            file_index,
        ),
        addr is None ==> final(sqe)@.addr == 0,
        addrlen is None ==> final(sqe)@.off == 0,
{
    sqe.prep_accept_direct(fd, addr, addrlen, flags, file_index);
}

/// Accepts connections on `fd` for as long as the request stays armed.
pub fn io_uring_prep_multishot_accept(
    sqe: &mut IoUringSqe,
    fd: i32,
    addr: Option<&mut libc::sockaddr>,
    addrlen: Option<&mut libc::socklen_t>,
    flags: u32,
)
    ensures
        final(sqe)@ == old(sqe)@.prep_multishot_accept(
            fd,
            final(sqe)@.addr,
            final(sqe)@.off,
            flags,
        ),
        addr is None ==> final(sqe)@.addr == 0,
        addrlen is None ==> final(sqe)@.off == 0,
{
    sqe.prep_multishot_accept(fd, addr, addrlen, flags);
}

/// Accepts connections on `fd`, each into a table slot of the kernel's choice.
pub fn io_uring_prep_multishot_accept_direct(
    sqe: &mut IoUringSqe,
    fd: i32,
    addr: Option<&mut libc::sockaddr>,
    addrlen: Option<&mut libc::socklen_t>,
    flags: u32,
)
    ensures
        final(sqe)@ == old(sqe)@.prep_multishot_accept_direct(
            fd,
            final(sqe)@.addr,
            final(sqe)@.off,
            flags,
        ),
        addr is None ==> final(sqe)@.addr == 0,
        addrlen is None ==> final(sqe)@.off == 0,
{
    sqe.prep_multishot_accept_direct(fd, addr, addrlen, flags);
}

/// Cancels the request whose token is `user_data`.
pub fn io_uring_prep_cancel64(sqe: &mut IoUringSqe, user_data: u64, flags: i32)
    ensures
        final(sqe)@ == old(sqe)@.prep_cancel64(user_data, flags),
{
    sqe.prep_cancel64(user_data, flags);
}

/// Cancels the request whose token is the address of `user_data`.
pub fn io_uring_prep_cancel<T>(sqe: &mut IoUringSqe, user_data: &T, flags: i32)
    ensures
        final(sqe)@ == old(sqe)@.prep_cancel64(final(sqe)@.addr, flags),
{
    sqe.prep_cancel(user_data, flags);
}

/// Cancels the request that was made on the descriptor `fd`.
pub fn io_uring_prep_cancel_fd(sqe: &mut IoUringSqe, fd: i32, flags: u32)
    ensures
        final(sqe)@ == old(sqe)@.prep_cancel_fd(fd, flags),
{
    sqe.prep_cancel_fd(fd, flags);
}

/// Arms a timeout of `ts` on the request that this one is linked to.
pub fn io_uring_prep_link_timeout(sqe: &mut IoUringSqe, ts: &mut libc::timespec, flags: u32)
    ensures
        final(sqe)@ == old(sqe)@.prep_link_timeout(final(sqe)@.addr, flags),
        *final(ts) == *old(ts),
{
    sqe.prep_link_timeout(ts, flags);
}

/// Connects `fd` to the address `addr` of length `addrlen`.
pub fn io_uring_prep_connect(
    sqe: &mut IoUringSqe,
    fd: i32,
    addr: &libc::sockaddr,
    addrlen: libc::socklen_t,
)
    ensures
        final(sqe)@ == old(sqe)@.prep_connect(fd, final(sqe)@.addr, addrlen),
{
    sqe.prep_connect(fd, addr, addrlen);
}

/// Replaces registered files, from the table slot `offset` on, by the descriptors `fds`.
pub fn io_uring_prep_files_update(sqe: &mut IoUringSqe, fds: &mut [i32], offset: i32)
    ensures
        final(sqe)@ == old(sqe)@.prep_files_update(
            final(sqe)@.addr,
            old(fds)@.len() as u32,
            offset,
        ),
        final(fds)@ == old(fds)@,
{
    sqe.prep_files_update(fds, offset);
}

/// Allocates `len` bytes of `fd` from `offset` on, in the way `mode` says.
pub fn io_uring_prep_fallocate(sqe: &mut IoUringSqe, fd: i32, mode: i32, offset: u64, len: u64)
    ensures
        final(sqe)@ == old(sqe)@.prep_fallocate(fd, mode, offset, len),
{
    sqe.prep_fallocate(fd, mode, offset, len);
}

/// Opens the file whose path, ended by a zero byte, is `path`, relative to `dfd`.
pub fn io_uring_prep_openat(
    sqe: &mut IoUringSqe,
    dfd: i32,
    path: &[u8],
    flags: i32,
    mode: libc::mode_t,
)
    ensures
        final(sqe)@ == old(sqe)@.prep_openat(dfd, final(sqe)@.addr, flags, mode),
{
    sqe.prep_openat(dfd, path, flags, mode);
}

/// Opens a file into the slot `file_index` of the registered file table, or into a
/// slot of the kernel's choice where `file_index` is the request to allocate.
pub fn io_uring_prep_openat_direct(
    sqe: &mut IoUringSqe,
    dfd: i32,
    path: &[u8],
    flags: i32,
    mode: libc::mode_t,
    file_index: u32,
)
    ensures
        final(sqe)@ == old(sqe)@.prep_openat_direct(
            dfd,
            final(sqe)@.addr,
            flags,
            mode,
            file_index,
        ),
{
    sqe.prep_openat_direct(dfd, path, flags, mode, file_index);
}

/// Closes `fd`.
pub fn io_uring_prep_close(sqe: &mut IoUringSqe, fd: i32)
    ensures
        final(sqe)@ == old(sqe)@.prep_close(fd),
{
    sqe.prep_close(fd);
}

/// Closes the descriptor in the slot `file_index` of the registered file table.
pub fn io_uring_prep_close_direct(sqe: &mut IoUringSqe, file_index: u32)
    ensures
        final(sqe)@ == old(sqe)@.prep_close_direct(file_index),
{
    sqe.prep_close_direct(file_index);
}

/// Reads from `fd` at `offset` until `buf` is full.
pub fn io_uring_prep_read(sqe: &mut IoUringSqe, fd: i32, buf: &mut [u8], offset: u64)
    ensures
        final(sqe)@ == old(sqe)@.prep_read(fd, final(sqe)@.addr, old(buf)@.len() as u32, offset),
        final(buf)@ == old(buf)@,
{
    sqe.prep_read(fd, buf, offset);
}

/// Writes all of `buf` to `fd` at `offset`.
pub fn io_uring_prep_write(sqe: &mut IoUringSqe, fd: i32, buf: &[u8], offset: u64)
    ensures
        final(sqe)@ == old(sqe)@.prep_write(fd, final(sqe)@.addr, buf@.len() as u32, offset),
{
    sqe.prep_write(fd, buf, offset);
}

/// Sends `buf` on the socket `sockfd`.
pub fn io_uring_prep_send(sqe: &mut IoUringSqe, sockfd: i32, buf: &[u8], flags: i32)
    ensures
        final(sqe)@ == old(sqe)@.prep_send(sockfd, final(sqe)@.addr, buf@.len() as u32, flags),
{
    sqe.prep_send(sockfd, buf, flags);
}

/// Names the destination of a send that is already encoded.
pub fn io_uring_prep_send_set_addr(sqe: &mut IoUringSqe, dest_addr: &libc::sockaddr, addr_len: u16)
    ensures
        final(sqe)@ == old(sqe)@.prep_send_set_addr(final(sqe)@.off, addr_len),
{
    sqe.prep_send_set_addr(dest_addr, addr_len);
}

/// Sends `buf` on the socket `sockfd` to the address `addr` of length `addr_len`.
pub fn io_uring_prep_sendto(
    sqe: &mut IoUringSqe,
    sockfd: i32,
    buf: &mut [u8],
    flags: i32,
    addr: &libc::sockaddr,
    addr_len: u16,
)
    ensures
        final(sqe)@ == old(sqe)@.prep_sendto(
            sockfd,
            final(sqe)@.addr,
            old(buf)@.len() as u32,
            flags,
            final(sqe)@.off,
            addr_len,
        ),
        final(buf)@ == old(buf)@,
{
    sqe.prep_sendto(sockfd, buf, flags, addr, addr_len);
}

/// Sends `buf` on the socket `sockfd` without copying it.
pub fn io_uring_prep_send_zc(
    sqe: &mut IoUringSqe,
    sockfd: i32,
    buf: &mut [u8],
    flags: i32,
    zc_flags: u32,
)
    ensures
        final(sqe)@ == old(sqe)@.prep_send_zc(
            sockfd,
            final(sqe)@.addr,
            old(buf)@.len() as u32,
            flags,
            zc_flags,
        ),
        final(buf)@ == old(buf)@,
{
    sqe.prep_send_zc(sockfd, buf, flags, zc_flags);
}

/// Sends `buf`, which lies in the registered buffer `buf_index`, without copying it.
pub fn io_uring_prep_send_zc_fixed(
    sqe: &mut IoUringSqe,
    sockfd: i32,
    buf: &mut [u8],
    flags: i32,
    zc_flags: u32,
    buf_index: u32,
)
    ensures
        final(sqe)@ == old(sqe)@.prep_send_zc_fixed(
            sockfd,
            final(sqe)@.addr,
            old(buf)@.len() as u32,
            flags,
            zc_flags,
            buf_index,
        ),
        final(buf)@ == old(buf)@,
{
    sqe.prep_send_zc_fixed(sockfd, buf, flags, zc_flags, buf_index);
}

/// Sends the message that `msg` describes on `fd` without copying it.
pub fn io_uring_prep_sendmsg_zc(sqe: &mut IoUringSqe, fd: i32, msg: &libc::msghdr, flags: u32)
    ensures
        final(sqe)@ == old(sqe)@.prep_sendmsg_zc(fd, final(sqe)@.addr, flags),
{
    sqe.prep_sendmsg_zc(fd, msg, flags);
}

/// Receives from the socket `sockfd` into `buf`.
pub fn io_uring_prep_recv(sqe: &mut IoUringSqe, sockfd: i32, buf: &mut [u8], flags: i32)
    ensures
        final(sqe)@ == old(sqe)@.prep_recv(
            sockfd,
            final(sqe)@.addr,
            old(buf)@.len() as u32,
            flags,
        ),
        final(buf)@ == old(buf)@,
{
    sqe.prep_recv(sockfd, buf, flags);
}

/// Receives from the socket `sockfd` for as long as the request stays armed.
pub fn io_uring_prep_recv_multishot(sqe: &mut IoUringSqe, sockfd: i32, buf: &mut [u8], flags: i32)
    ensures
        final(sqe)@ == old(sqe)@.prep_recv_multishot(
            sockfd,
            final(sqe)@.addr,
            old(buf)@.len() as u32,
            flags,
        ),
        final(buf)@ == old(buf)@,
{
    sqe.prep_recv_multishot(sockfd, buf, flags);
}

/// Posts a completion with result `len` and token `data` on the ring `fd`, and passes
/// `cqe_flags` on as its flags.
pub fn io_uring_prep_msg_ring_cqe_flags(
    sqe: &mut IoUringSqe,
    fd: i32,
    len: u32,
    data: u64,
    flags: u32,
    cqe_flags: u32,
)
    ensures
        final(sqe)@ == old(sqe)@.prep_msg_ring_cqe_flags(fd, len, data, flags, cqe_flags),
{
    sqe.prep_msg_ring_cqe_flags(fd, len, data, flags, cqe_flags);
}

/// Posts a completion with result `len` and token `data` on the ring `fd`.
pub fn io_uring_prep_msg_ring(sqe: &mut IoUringSqe, fd: i32, len: u32, data: u64, flags: u32)
    ensures
        final(sqe)@ == old(sqe)@.prep_msg_ring(fd, len, data, flags),
{
    sqe.prep_msg_ring(fd, len, data, flags);
}

/// Passes the registered descriptor `source_fd` to the ring `fd`, into the slot
/// `target_fd` of its file table, or into a slot of the kernel's choice where
/// `target_fd` is the request to allocate; `data` is the token of the completion there.
pub fn io_uring_prep_msg_ring_fd(
    sqe: &mut IoUringSqe,
    fd: i32,
    source_fd: i32,
    target_fd: i32,
    data: u64,
    flags: u32,
)
    ensures
        final(sqe)@ == old(sqe)@.prep_msg_ring_fd(fd, source_fd, target_fd, data, flags),
{
    sqe.prep_msg_ring_fd(fd, source_fd, target_fd, data, flags);
}

/// Passes the registered descriptor `source_fd` to the ring `fd`, into a slot of the
/// kernel's choice.
pub fn io_uring_prep_msg_ring_fd_alloc(
    sqe: &mut IoUringSqe,
    fd: i32,
    source_fd: i32,
    data: u64,
    flags: u32,
)
    ensures
        final(sqe)@ == old(sqe)@.prep_msg_ring_fd_alloc(fd, source_fd, data, flags),
{
    sqe.prep_msg_ring_fd_alloc(fd, source_fd, data, flags);
}

/// Creates a socket.
pub fn io_uring_prep_socket(
    sqe: &mut IoUringSqe,
    domain: i32,
    socket_type: i32,
    protocol: i32,
    flags: u32,
)
    ensures
        final(sqe)@ == old(sqe)@.prep_socket(domain, socket_type, protocol, flags),
{
    sqe.prep_socket(domain, socket_type, protocol, flags);
}

/// Creates a socket in the slot `file_index` of the registered file table, or in a
/// slot of the kernel's choice where `file_index` is the request to allocate.
pub fn io_uring_prep_socket_direct(
    sqe: &mut IoUringSqe,
    domain: i32,
    socket_type: i32,
    protocol: i32,
    file_index: u32,
    flags: u32,
)
    ensures
        final(sqe)@ == old(sqe)@.prep_socket_direct(
            domain,
            socket_type,
            protocol,
            file_index,
            flags,
        ),
{
    sqe.prep_socket_direct(domain, socket_type, protocol, file_index, flags);
}

/// Creates a socket in a table slot of the kernel's choice.
pub fn io_uring_prep_socket_direct_alloc(
    sqe: &mut IoUringSqe,
    domain: i32,
    socket_type: i32,
    protocol: i32,
    flags: u32,
)
    ensures
        final(sqe)@ == old(sqe)@.prep_socket_direct_alloc(domain, socket_type, protocol, flags),
{
    sqe.prep_socket_direct_alloc(domain, socket_type, protocol, flags);
}

} // verus!
