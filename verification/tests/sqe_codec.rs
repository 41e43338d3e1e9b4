use rask_liburing::consts::IORING_ACCEPT_MULTISHOT;
use rask_liburing::consts::IORING_ASYNC_CANCEL_ALL;
use rask_liburing::consts::IORING_ASYNC_CANCEL_FD;
use rask_liburing::consts::IORING_FILE_INDEX_ALLOC;
use rask_liburing::consts::IORING_MSG_RING_FLAGS_PASS;
use rask_liburing::consts::IORING_MSG_SEND_FD;
use rask_liburing::consts::IORING_OP_ACCEPT;
use rask_liburing::consts::IORING_OP_ASYNC_CANCEL;
use rask_liburing::consts::IORING_OP_CLOSE;
use rask_liburing::consts::IORING_OP_CONNECT;
use rask_liburing::consts::IORING_OP_FALLOCATE;
use rask_liburing::consts::IORING_OP_FILES_UPDATE;
use rask_liburing::consts::IORING_OP_FSYNC;
use rask_liburing::consts::IORING_OP_LINK_TIMEOUT;
use rask_liburing::consts::IORING_OP_MSG_RING;
use rask_liburing::consts::IORING_OP_NOP;
use rask_liburing::consts::IORING_OP_OPENAT;
use rask_liburing::consts::IORING_OP_POLL_ADD;
use rask_liburing::consts::IORING_OP_POLL_REMOVE;
use rask_liburing::consts::IORING_OP_READ;
use rask_liburing::consts::IORING_OP_READV;
use rask_liburing::consts::IORING_OP_RECVMSG;
use rask_liburing::consts::IORING_OP_SENDMSG;
use rask_liburing::consts::IORING_OP_SENDMSG_ZC;
use rask_liburing::consts::IORING_OP_WRITEV;
use rask_liburing::consts::IORING_OP_READ_FIXED;
use rask_liburing::consts::IORING_OP_RECV;
use rask_liburing::consts::IORING_OP_SEND;
use rask_liburing::consts::IORING_OP_SEND_ZC;
use rask_liburing::consts::IORING_OP_SOCKET;
use rask_liburing::consts::IORING_OP_SPLICE;
use rask_liburing::consts::IORING_OP_TEE;
use rask_liburing::consts::IORING_OP_TIMEOUT;
use rask_liburing::consts::IORING_OP_TIMEOUT_REMOVE;
use rask_liburing::consts::IORING_OP_WRITE;
use rask_liburing::consts::IORING_OP_WRITE_FIXED;
use rask_liburing::consts::IORING_POLL_ADD_MULTI;
use rask_liburing::consts::IORING_POLL_UPDATE_EVENTS;
use rask_liburing::consts::IORING_RECVSEND_FIXED_BUF;
use rask_liburing::consts::IORING_RECV_MULTISHOT;
use rask_liburing::consts::IORING_TIMEOUT_ABS;
use rask_liburing::consts::IORING_TIMEOUT_UPDATE;
use rask_liburing::entry::SubmissionEntry;
use rask_liburing::prep::io_uring_prep_accept;
use rask_liburing::prep::io_uring_prep_close;
use rask_liburing::prep::io_uring_prep_close_direct;
use rask_liburing::prep::io_uring_prep_msg_ring_fd;
use rask_liburing::prep::io_uring_prep_msg_ring_fd_alloc;
use rask_liburing::prep::io_uring_prep_multishot_accept;
use rask_liburing::prep::io_uring_prep_poll_add;
use rask_liburing::prep::io_uring_prep_poll_multishot;
use rask_liburing::prep::io_uring_prep_recv;
use rask_liburing::prep::io_uring_prep_rw;
use rask_liburing::prep::io_uring_prep_rw_buf;
use rask_liburing::prep::io_uring_prep_rw_null;
use rask_liburing::prep::io_uring_prep_send;
use rask_liburing::prep::io_uring_prep_socket_direct;
use rask_liburing::prep::io_uring_prep_socket_direct_alloc;
use rask_liburing::prep::io_uring_prep_splice;
use rask_liburing::prep::io_uring_set_target_fixed_file;
use rask_liburing::prep::io_uring_sqe_set_data;
use rask_liburing::prep::io_uring_sqe_set_data64;
use rask_liburing::prep::io_uring_sqe_set_flags;
use rask_liburing::sqe::IoUringSqe;

const ALLOC: u32 = IORING_FILE_INDEX_ALLOC as u32;

/// A slot that still holds an earlier request in every cell.
fn stale() -> IoUringSqe {
    let mut sqe = IoUringSqe::zeroed();
    sqe.prep_rw_addr(0xee, 0x0eee_eeee, 0xeeee_eeee_eeee_eeee, 0xeeee_eeee, 0xeeee_eeee_eeee_eeee);
    sqe.set_flags(0xee);
    sqe.prep_msg_ring_cqe_flags(0x0eee_eeee, 0xeeee_eeee, 0xeeee_eeee_eeee_eeee, 0xeeee_eeee, 0xeeee_eeee);
    sqe.set_flags(0xee);
    sqe.set_data64(0xeeee_eeee_eeee_eeee);
    sqe
}

fn cells(sqe: &IoUringSqe) -> (u8, u8, u16, i32, u64, u64, u32, u32, u64, u16, u32, u64) {
    (
        sqe.opcode(),
        sqe.flags(),
        sqe.ioprio(),
        sqe.fd(),
        sqe.off(),
        sqe.addr(),
        sqe.len(),
        sqe.op_flags(),
        sqe.user_data(),
        sqe.buf_index(),
        sqe.file_index(),
        sqe.addr3(),
    )
}

#[test]
fn zeroed_entry_is_all_zero() {
    assert_eq!(cells(&IoUringSqe::zeroed()), (0, 0, 0, 0, 0, 0, 0, 0, 0, 0, 0, 0));
    assert_eq!(IoUringSqe::zeroed().rw_flags(), 0);
    assert_eq!(IoUringSqe::zeroed().splice_fd_in(), 0);
    assert_eq!(IoUringSqe::zeroed().addr_len(), 0);
}

#[test]
fn accept_on_fd_7_without_address() {
    let mut sqe = IoUringSqe::zeroed();
    sqe.prep_accept(7, None, None, 0);
    assert_eq!(sqe.opcode(), IORING_OP_ACCEPT);
    assert_eq!(sqe.fd(), 7);
    assert_eq!(sqe.len(), 0);
    assert_eq!(sqe.op_flags(), 0);
    assert_eq!(cells(&sqe), (13, 0, 0, 7, 0, 0, 0, 0, 0, 0, 0, 0));
}

#[test]
fn poll_add_then_multishot() {
    let mut sqe = IoUringSqe::zeroed();
    sqe.prep_poll_add(3, 0x0001);
    assert_eq!(cells(&sqe), (IORING_OP_POLL_ADD, 0, 0, 3, 0, 0, 0, 0x0001u32.to_le(), 0, 0, 0, 0));
    sqe.prep_poll_multishot(3, 0x0001);
    assert_eq!(sqe.len(), IORING_POLL_ADD_MULTI);
    assert_eq!(sqe.op_flags(), 0x0001u32.to_le());
    assert_eq!(cells(&sqe), (IORING_OP_POLL_ADD, 0, 0, 3, 0, 0, 1, 0x0001u32.to_le(), 0, 0, 0, 0));
}

#[test]
fn poll_mask_is_stored_little_endian() {
    let mut sqe = stale();
    sqe.prep_poll_add(9, 0x1234_5678);
    assert_eq!(sqe.op_flags().to_ne_bytes(), [0x78, 0x56, 0x34, 0x12]);
    sqe.prep_poll_update(1, 2, 0xa1b2_c3d4, IORING_POLL_UPDATE_EVENTS);
    assert_eq!(sqe.op_flags().to_ne_bytes(), [0xd4, 0xc3, 0xb2, 0xa1]);
    assert_eq!(cells(&sqe).0, IORING_OP_POLL_REMOVE);
    assert_eq!((sqe.fd(), sqe.addr(), sqe.off(), sqe.len()), (-1, 1, 2, IORING_POLL_UPDATE_EVENTS));
    sqe.prep_poll_add_le(9, 0x1234_5678);
    assert_eq!(sqe.op_flags(), 0x1234_5678);
    sqe.prep_poll_update_le(5, 6, 0x0bad_cafe, 3);
    assert_eq!((sqe.addr(), sqe.off(), sqe.op_flags(), sqe.len()), (5, 6, 0x0bad_cafe, 3));
}

#[test]
fn base_encoder_clears_flags_and_priority_and_keeps_the_rest() {
    let mut sqe = stale();
    sqe.prep_rw_null(22, 5, 4096, 8192);
    assert_eq!(
        cells(&sqe),
        (22, 0, 0, 5, 8192, 0, 4096, 0xeeee_eeee | IORING_MSG_RING_FLAGS_PASS, 0xeeee_eeee_eeee_eeee, 0, 0xeeee_eeee, 0)
    );
    sqe.prep_rw_addr(23, -1, 0xdead_0000, 1, u64::MAX);
    assert_eq!((sqe.opcode(), sqe.fd(), sqe.addr(), sqe.len(), sqe.off()), (23, -1, 0xdead_0000, 1, u64::MAX));
}

#[test]
fn base_encoder_takes_the_address_of_what_it_is_given() {
    let value: u64 = 5;
    let other: u64 = 5;
    let mut sqe = IoUringSqe::zeroed();
    sqe.prep_rw(1, 2, Some(&value), 3, 4);
    assert_eq!(sqe.addr(), std::ptr::from_ref(&value).addr() as u64);
    assert_ne!(sqe.addr(), std::ptr::from_ref(&other).addr() as u64);
    assert_ne!(sqe.addr(), 0);
    assert_eq!((sqe.opcode(), sqe.fd(), sqe.len(), sqe.off()), (1, 2, 3, 4));
    sqe.prep_rw::<u64>(1, 2, None, 3, 4);
    assert_eq!(sqe.addr(), 0);
    io_uring_prep_rw(0x116, &mut sqe, 2, Some(&other), 3, 4);
    assert_eq!(sqe.opcode(), 0x16);
    assert_eq!(sqe.addr(), std::ptr::from_ref(&other).addr() as u64);
}

#[test]
fn base_encoder_takes_address_and_length_of_a_buffer() {
    let buf = [0u32; 10];
    let mut sqe = IoUringSqe::zeroed();
    sqe.prep_rw_buf(4, 6, Some(&buf[..]), 77);
    assert_eq!(sqe.addr(), buf.as_ptr().addr() as u64);
    assert_eq!(sqe.len(), 10);
    assert_eq!(sqe.off(), 77);
    sqe.prep_rw_buf(4, 6, Some(&buf[3..5]), 77);
    assert_eq!(sqe.addr(), buf[3..].as_ptr().addr() as u64);
    assert_eq!(sqe.len(), 2);
    sqe.prep_rw_buf::<u32>(4, 6, None, 77);
    assert_eq!((sqe.addr(), sqe.len()), (0, 0));
    io_uring_prep_rw_buf(4, &mut sqe, 6, Some(&buf[..1]), 78);
    assert_eq!((sqe.addr(), sqe.len(), sqe.off()), (buf.as_ptr().addr() as u64, 1, 78));
    io_uring_prep_rw_null(IORING_OP_NOP as u32, &mut sqe, -1, 0, 0);
    assert_eq!((sqe.opcode(), sqe.fd(), sqe.addr(), sqe.len(), sqe.off()), (0, -1, 0, 0, 0));
}

#[test]
fn user_data_and_flags_are_set_alone() {
    let mut sqe = stale();
    let before = cells(&sqe);
    sqe.set_data64(0x0123_4567_89ab_cdef);
    assert_eq!(sqe.user_data(), 0x0123_4567_89ab_cdef);
    sqe.set_flags(0x41);
    assert_eq!(sqe.flags(), 0x41);
    io_uring_sqe_set_flags(&mut sqe, 0x1_05);
    assert_eq!(sqe.flags(), 0x05);
    io_uring_sqe_set_data64(&mut sqe, 17);
    assert_eq!(sqe.user_data(), 17);
    let token = [1u8, 2, 3];
    sqe.set_data(&token);
    assert_eq!(sqe.user_data(), std::ptr::from_ref(&token).addr() as u64);
    let other = 9i32;
    io_uring_sqe_set_data(&mut sqe, &other);
    assert_eq!(sqe.user_data(), std::ptr::from_ref(&other).addr() as u64);
    sqe.set_flags(before.1);
    sqe.set_data64(before.8);
    assert_eq!(cells(&sqe), before);
}

#[test]
fn splice_and_tee() {
    let mut sqe = stale();
    sqe.prep_splice(4, -1, 5, 1 << 40, 65536, 3);
    assert_eq!(
        cells(&sqe),
        (IORING_OP_SPLICE, 0, 0, 5, 1 << 40, u64::MAX, 65536, 3, 0xeeee_eeee_eeee_eeee, 0, 4, 0)
    );
    assert_eq!(sqe.splice_fd_in(), 4);
    sqe.prep_splice(-7, i64::MIN, -8, -2, 0, 0);
    assert_eq!(sqe.splice_fd_in(), -7);
    assert_eq!((sqe.fd(), sqe.off() as i64, sqe.addr() as i64), (-8, -2, i64::MIN));
    sqe.prep_tee(11, 12, 13, 14);
    assert_eq!(cells(&sqe), (IORING_OP_TEE, 0, 0, 12, 0, 0, 13, 14, 0xeeee_eeee_eeee_eeee, 0, 11, 0));
    let mut free = stale();
    io_uring_prep_splice(&mut free, 4, -1, 5, 1 << 40, 65536, 3);
    assert_eq!(free.file_index(), 4);
    assert_eq!(free.opcode(), IORING_OP_SPLICE);
}

#[test]
fn reads_and_writes() {
    let mut buf = [0u8; 300];
    let at = buf.as_ptr().addr() as u64;
    let mut sqe = stale();
    sqe.prep_read(3, &mut buf, 512);
    assert_eq!(cells(&sqe).0, IORING_OP_READ);
    assert_eq!((sqe.fd(), sqe.addr(), sqe.len(), sqe.off()), (3, at, 300, 512));
    sqe.prep_write(4, &buf[..7], u64::MAX);
    assert_eq!((sqe.opcode(), sqe.fd(), sqe.addr(), sqe.len(), sqe.off()), (IORING_OP_WRITE, 4, at, 7, u64::MAX));
    sqe.prep_read_fixed(5, &mut buf[10..], 0, 9);
    assert_eq!((sqe.opcode(), sqe.addr(), sqe.len(), sqe.buf_index()), (IORING_OP_READ_FIXED, at + 10, 290, 9));
    sqe.prep_write_fixed(5, &mut buf, 1, 0x1_0002);
    assert_eq!((sqe.opcode(), sqe.addr(), sqe.len(), sqe.off(), sqe.buf_index()), (IORING_OP_WRITE_FIXED, at, 300, 1, 2));
    assert_eq!(buf, [0u8; 300]);
}

#[test]
fn sends_and_receives() {
    let mut buf = [7u8; 64];
    let at = buf.as_ptr().addr() as u64;
    let mut sqe = stale();
    sqe.prep_send(8, &buf, 0x4000);
    assert_eq!(
        cells(&sqe),
        (IORING_OP_SEND, 0, 0, 8, 0, at, 64, 0x4000, 0xeeee_eeee_eeee_eeee, 0, 0xeeee_eeee, 0)
    );
    sqe.prep_recv(8, &mut buf, -1);
    assert_eq!((sqe.opcode(), sqe.ioprio(), sqe.addr(), sqe.len(), sqe.op_flags()), (IORING_OP_RECV, 0, at, 64, u32::MAX));
    assert_eq!(sqe.rw_flags(), -1);
    sqe.prep_recv_multishot(8, &mut buf[..0], 0);
    assert_eq!((sqe.opcode(), sqe.ioprio(), sqe.len()), (IORING_OP_RECV, IORING_RECV_MULTISHOT as u16, 0));
    sqe.prep_send_zc(9, &mut buf, 1, 0x1_0008);
    assert_eq!((sqe.opcode(), sqe.ioprio(), sqe.op_flags(), sqe.len()), (IORING_OP_SEND_ZC, 8, 1, 64));
    sqe.prep_send_zc_fixed(9, &mut buf, 1, 8, 0x2_0003);
    assert_eq!((sqe.opcode(), sqe.ioprio(), sqe.buf_index()), (IORING_OP_SEND_ZC, 8 | IORING_RECVSEND_FIXED_BUF as u16, 3));
    let mut free = stale();
    io_uring_prep_send(&mut free, 8, &buf, 0x4000);
    assert_eq!((free.opcode(), free.addr(), free.len(), free.op_flags()), (IORING_OP_SEND, at, 64, 0x4000));
    io_uring_prep_recv(&mut free, 8, &mut buf, 2);
    assert_eq!((free.opcode(), free.addr(), free.len(), free.op_flags()), (IORING_OP_RECV, at, 64, 2));
}

#[test]
fn send_destination_keeps_the_other_half_of_its_cell() {
    let dest = libc::sockaddr { sa_family: 2, sa_data: [0; 14] };
    let mut sqe = stale();
    sqe.prep_send_set_addr(&dest, 16);
    assert_eq!(sqe.off(), std::ptr::from_ref(&dest).addr() as u64);
    assert_eq!(sqe.addr_len(), 16);
    assert_eq!(sqe.file_index(), 0xeeee_0010);
    let mut buf = [0u8; 4];
    sqe.prep_close(0);
    sqe.prep_close_direct(u32::MAX);
    sqe.prep_sendto(3, &mut buf, 0, &dest, 28);
    assert_eq!((sqe.opcode(), sqe.fd(), sqe.len(), sqe.addr_len(), sqe.file_index()), (IORING_OP_SEND, 3, 4, 28, 28));
    assert_eq!(sqe.off(), std::ptr::from_ref(&dest).addr() as u64);
}

#[test]
fn accept_with_and_without_address() {
    let mut addr = libc::sockaddr { sa_family: 0, sa_data: [0; 14] };
    let mut len: libc::socklen_t = 16;
    let addr_at = std::ptr::from_ref(&addr).addr() as u64;
    let len_at = std::ptr::from_ref(&len).addr() as u64;
    let mut sqe = stale();
    sqe.prep_accept(7, Some(&mut addr), Some(&mut len), 0x800);
    assert_eq!(
        cells(&sqe),
        (IORING_OP_ACCEPT, 0, 0, 7, len_at, addr_at, 0, 0x800, 0xeeee_eeee_eeee_eeee, 0, 0xeeee_eeee, 0)
    );
    sqe.prep_accept(7, None, Some(&mut len), 0);
    assert_eq!((sqe.addr(), sqe.off()), (0, len_at));
    sqe.prep_multishot_accept(7, Some(&mut addr), None, 1);
    assert_eq!((sqe.addr(), sqe.off(), sqe.ioprio(), sqe.op_flags()), (addr_at, 0, IORING_ACCEPT_MULTISHOT as u16, 1));
    let mut free = stale();
    io_uring_prep_accept(&mut free, 7, None, None, 0);
    assert_eq!((free.opcode(), free.fd(), free.len(), free.op_flags(), free.ioprio()), (13, 7, 0, 0, 0));
    io_uring_prep_multishot_accept(&mut free, 7, None, None, 0);
    assert_eq!((free.opcode(), free.fd(), free.ioprio()), (13, 7, 1));
    assert_eq!(len, 16);
}

#[test]
fn direct_descriptors_are_stored_plus_one() {
    let mut sqe = stale();
    sqe.io_uring_set_target_fixed_file(0);
    assert_eq!(sqe.file_index(), 1);
    sqe.io_uring_set_target_fixed_file(41);
    assert_eq!(sqe.file_index(), 42);
    sqe.io_uring_set_target_fixed_file(u32::MAX);
    assert_eq!(sqe.file_index(), 0);
    io_uring_set_target_fixed_file(&mut sqe, 6);
    assert_eq!(sqe.file_index(), 7);
    sqe.prep_close_direct(5);
    assert_eq!(cells(&sqe), (IORING_OP_CLOSE, 0, 0, 0, 0, 0, 0, 0xeeee_eeee | 2, 0xeeee_eeee_eeee_eeee, 0, 6, 0));
    io_uring_prep_close_direct(&mut sqe, 0);
    assert_eq!(sqe.file_index(), 1);
    sqe.prep_accept_direct(7, None, None, 0, 9);
    assert_eq!((sqe.opcode(), sqe.file_index()), (IORING_OP_ACCEPT, 10));
    sqe.prep_socket_direct(2, 1, 0, 100, 0);
    assert_eq!((sqe.opcode(), sqe.file_index()), (IORING_OP_SOCKET, 101));
    sqe.prep_openat_direct(-100, b"/tmp\0", 0, 0o644, 0xffff_fffe);
    assert_eq!((sqe.opcode(), sqe.file_index()), (IORING_OP_OPENAT, u32::MAX));
    sqe.prep_msg_ring_fd(4, 5, 6, 7, 8);
    assert_eq!(sqe.file_index(), 7);
    sqe.prep_msg_ring_fd(4, 5, -2, 7, 8);
    assert_eq!(sqe.file_index(), u32::MAX);
    sqe.prep_msg_ring_fd(4, 5, 0, 7, 8);
    assert_eq!(sqe.file_index(), 1);
}

#[test]
fn allocation_sentinel_is_one_value_on_every_path() {
    let wire = (ALLOC - 1).wrapping_add(1);
    assert_eq!(wire, 0xffff_ffff);
    let mut sqe = stale();
    sqe.prep_accept_direct(7, None, None, 0, ALLOC);
    assert_eq!(sqe.file_index(), wire);
    sqe.prep_close(0);
    sqe.prep_multishot_accept_direct(7, None, None, 0);
    assert_eq!(sqe.file_index(), wire);
    assert_eq!(sqe.ioprio(), 1);
    sqe.prep_close_direct(0);
    sqe.prep_openat_direct(-100, b"x\0", 0, 0, ALLOC);
    assert_eq!(sqe.file_index(), wire);
    sqe.prep_close_direct(0);
    sqe.prep_socket_direct(2, 1, 6, ALLOC, 0);
    assert_eq!(sqe.file_index(), wire);
    sqe.prep_close_direct(0);
    sqe.prep_socket_direct_alloc(2, 1, 6, 0);
    assert_eq!(sqe.file_index(), wire);
    sqe.prep_close_direct(0);
    sqe.prep_msg_ring_fd(1, 2, IORING_FILE_INDEX_ALLOC, 3, 0);
    assert_eq!(sqe.file_index(), wire);
    sqe.prep_close_direct(0);
    sqe.prep_msg_ring_fd_alloc(1, 2, 3, 0);
    assert_eq!(sqe.file_index(), wire);

    let mut by_index = stale();
    let mut by_alloc = stale();
    io_uring_prep_socket_direct(&mut by_index, 10, 2, 17, ALLOC, 0x80000);
    io_uring_prep_socket_direct_alloc(&mut by_alloc, 10, 2, 17, 0x80000);
    assert_eq!(cells(&by_index), cells(&by_alloc));
    io_uring_prep_msg_ring_fd(&mut by_index, 1, 2, IORING_FILE_INDEX_ALLOC, 3, 4);
    io_uring_prep_msg_ring_fd_alloc(&mut by_alloc, 1, 2, 3, 4);
    assert_eq!(cells(&by_index), cells(&by_alloc));
}

#[test]
fn message_to_another_ring() {
    let mut sqe = stale();
    sqe.prep_msg_ring(4, 100, 0xabcd, 1);
    assert_eq!(
        cells(&sqe),
        (IORING_OP_MSG_RING, 0, 0, 4, 0xabcd, 0, 100, 1, 0xeeee_eeee_eeee_eeee, 0, 0xeeee_eeee, 0)
    );
    sqe.prep_msg_ring_cqe_flags(4, 100, 0xabcd, 1, 0x10);
    assert_eq!((sqe.op_flags(), sqe.file_index()), (1 | IORING_MSG_RING_FLAGS_PASS, 0x10));
    sqe.prep_msg_ring_fd(4, -1, 8, 0x55, 2);
    assert_eq!(
        cells(&sqe),
        (IORING_OP_MSG_RING, 0, 0, 4, 0x55, IORING_MSG_SEND_FD as u64, 0, 2, 0xeeee_eeee_eeee_eeee, 0, 9, u64::MAX)
    );
    sqe.prep_msg_ring_fd(4, 12, 8, 0x55, 2);
    assert_eq!(sqe.addr3(), 12);
}

#[test]
fn cancellations() {
    let mut sqe = stale();
    sqe.prep_cancel64(0x77, IORING_ASYNC_CANCEL_ALL as i32);
    assert_eq!(
        cells(&sqe),
        (IORING_OP_ASYNC_CANCEL, 0, 0, -1, 0, 0x77, 0, 1, 0xeeee_eeee_eeee_eeee, 0, 0xeeee_eeee, 0)
    );
    sqe.prep_cancel64(0x77, -1);
    assert_eq!(sqe.op_flags(), u32::MAX);
    sqe.prep_cancel_fd(9, IORING_ASYNC_CANCEL_ALL);
    assert_eq!((sqe.fd(), sqe.addr(), sqe.op_flags()), (9, 0, IORING_ASYNC_CANCEL_ALL | IORING_ASYNC_CANCEL_FD));
    let token = 3u8;
    sqe.prep_cancel(&token, 0);
    assert_eq!((sqe.fd(), sqe.addr(), sqe.op_flags()), (-1, std::ptr::from_ref(&token).addr() as u64, 0));
}

#[test]
fn timeouts() {
    let mut ts = libc::timespec { tv_sec: 1, tv_nsec: 500 };
    let at = std::ptr::from_ref(&ts).addr() as u64;
    let mut sqe = stale();
    sqe.prep_timeout(&mut ts, 3, IORING_TIMEOUT_ABS);
    assert_eq!(
        cells(&sqe),
        (IORING_OP_TIMEOUT, 0, 0, -1, 3, at, 1, 1, 0xeeee_eeee_eeee_eeee, 0, 0xeeee_eeee, 0)
    );
    sqe.prep_timeout_remove(0x99, 0);
    assert_eq!((sqe.opcode(), sqe.fd(), sqe.addr(), sqe.off(), sqe.len(), sqe.op_flags()), (IORING_OP_TIMEOUT_REMOVE, -1, 0x99, 0, 0, 0));
    sqe.prep_timeout_update(&mut ts, 0x99, IORING_TIMEOUT_ABS);
    assert_eq!(
        (sqe.opcode(), sqe.addr(), sqe.off(), sqe.op_flags()),
        (IORING_OP_TIMEOUT_REMOVE, 0x99, at, IORING_TIMEOUT_ABS | IORING_TIMEOUT_UPDATE)
    );
    sqe.prep_link_timeout(&mut ts, 0);
    assert_eq!((sqe.opcode(), sqe.fd(), sqe.addr(), sqe.off(), sqe.len(), sqe.op_flags()), (IORING_OP_LINK_TIMEOUT, -1, at, 0, 1, 0));
    assert_eq!((ts.tv_sec, ts.tv_nsec), (1, 500));
}

#[test]
fn files_and_sockets() {
    let mut sqe = stale();
    sqe.prep_fsync(3, 1);
    assert_eq!((sqe.opcode(), sqe.fd(), sqe.op_flags(), sqe.len(), sqe.off(), sqe.addr()), (IORING_OP_FSYNC, 3, 1, 0, 0, 0));
    sqe.prep_nop();
    assert_eq!((sqe.opcode(), sqe.fd(), sqe.len(), sqe.off(), sqe.addr()), (IORING_OP_NOP, -1, 0, 0, 0));
    sqe.prep_close(12);
    assert_eq!((sqe.opcode(), sqe.fd()), (IORING_OP_CLOSE, 12));
    sqe.prep_fallocate(3, -2, 4096, 1 << 33);
    assert_eq!((sqe.opcode(), sqe.fd(), sqe.len(), sqe.off(), sqe.addr()), (IORING_OP_FALLOCATE, 3, 0xffff_fffe, 4096, 1 << 33));
    let mut fds = [3, 4, 5];
    sqe.prep_files_update(&mut fds, -1);
    assert_eq!(
        (sqe.opcode(), sqe.fd(), sqe.addr(), sqe.len(), sqe.off()),
        (IORING_OP_FILES_UPDATE, -1, fds.as_ptr().addr() as u64, 3, u64::MAX)
    );
    sqe.prep_files_update(&mut fds, 8);
    assert_eq!(sqe.off(), 8);
    let path = b"/etc/hosts\0";
    sqe.prep_openat(-100, path, 0o2000000, 0o600);
    assert_eq!(
        (sqe.opcode(), sqe.fd(), sqe.addr(), sqe.len(), sqe.off(), sqe.op_flags()),
        (IORING_OP_OPENAT, -100, path.as_ptr().addr() as u64, 0o600, 0, 0o2000000)
    );
    let peer = libc::sockaddr { sa_family: 10, sa_data: [0; 14] };
    sqe.prep_connect(5, &peer, 28);
    assert_eq!(
        (sqe.opcode(), sqe.fd(), sqe.addr(), sqe.len(), sqe.off()),
        (IORING_OP_CONNECT, 5, std::ptr::from_ref(&peer).addr() as u64, 0, 28)
    );
    sqe.prep_socket(10, 1, 6, 0x80000);
    assert_eq!(
        (sqe.opcode(), sqe.fd(), sqe.off(), sqe.len(), sqe.op_flags(), sqe.addr(), sqe.rw_flags()),
        (IORING_OP_SOCKET, 10, 1, 6, 0x80000, 0, 0x80000)
    );
    sqe.prep_socket(-1, -1, -1, u32::MAX);
    assert_eq!((sqe.fd(), sqe.off(), sqe.len(), sqe.rw_flags()), (-1, u64::MAX, u32::MAX, -1));
    sqe.prep_poll_remove(0x1234);
    assert_eq!((sqe.opcode(), sqe.fd(), sqe.addr()), (IORING_OP_POLL_REMOVE, -1, 0x1234));
    io_uring_prep_close(&mut sqe, 1);
    assert_eq!((sqe.opcode(), sqe.fd(), sqe.addr()), (IORING_OP_CLOSE, 1, 0));
    io_uring_prep_poll_add(&mut sqe, 3, 1);
    io_uring_prep_poll_multishot(&mut sqe, 3, 4);
    assert_eq!((sqe.opcode(), sqe.len(), sqe.op_flags()), (IORING_OP_POLL_ADD, 1, 4u32.to_le()));
}

#[test]
fn a_reused_slot_is_encoded_like_a_fresh_one_in_the_cells_of_the_operation() {
    let mut buf = [0u8; 16];
    let mut fresh = IoUringSqe::zeroed();
    let mut reused = stale();
    fresh.prep_recv(4, &mut buf, 0);
    reused.prep_recv(4, &mut buf, 0);
    assert_eq!(
        (fresh.opcode(), fresh.flags(), fresh.ioprio(), fresh.fd(), fresh.off(), fresh.addr(), fresh.len(), fresh.op_flags()),
        (reused.opcode(), reused.flags(), reused.ioprio(), reused.fd(), reused.off(), reused.addr(), reused.len(), reused.op_flags())
    );
    assert_eq!(reused.user_data(), 0xeeee_eeee_eeee_eeee);
    assert_eq!(fresh.user_data(), 0);
}

#[test]
fn submission_entry_chains_on_one_slot() {
    let mut buf = [0u8; 32];
    let mut sqe = stale();
    {
        let mut entry = SubmissionEntry::new(&mut sqe);
        entry.prep_accept(7).set_user_data(1);
    }
    assert_eq!((sqe.opcode(), sqe.fd(), sqe.addr(), sqe.off(), sqe.op_flags(), sqe.ioprio(), sqe.user_data()), (13, 7, 0, 0, 0, 0, 1));
    SubmissionEntry::new(&mut sqe).prep_accept_multi(8).set_user_data(2);
    assert_eq!((sqe.opcode(), sqe.fd(), sqe.ioprio(), sqe.user_data()), (13, 8, 1, 2));
    SubmissionEntry::new(&mut sqe).prep_recv(9, &mut buf).set_user_data(3);
    assert_eq!(
        (sqe.opcode(), sqe.fd(), sqe.addr(), sqe.len(), sqe.op_flags(), sqe.ioprio(), sqe.user_data()),
        (IORING_OP_RECV, 9, buf.as_ptr().addr() as u64, 32, 0, 0, 3)
    );
    SubmissionEntry::new(&mut sqe).set_user_data(4).prep_send(9, &buf[..5]);
    assert_eq!((sqe.opcode(), sqe.len(), sqe.op_flags(), sqe.user_data()), (IORING_OP_SEND, 5, 0, 4));
    SubmissionEntry::new(&mut sqe).prep_close(9);
    assert_eq!((sqe.opcode(), sqe.fd(), sqe.len(), sqe.addr(), sqe.user_data()), (IORING_OP_CLOSE, 9, 0, 0, 4));
}

#[test]
fn vectored_transfers() {
    let iovecs = [
        libc::iovec { iov_base: std::ptr::null_mut(), iov_len: 0 },
        libc::iovec { iov_base: std::ptr::null_mut(), iov_len: 0 },
        libc::iovec { iov_base: std::ptr::null_mut(), iov_len: 0 },
    ];
    let at = iovecs.as_ptr().addr() as u64;
    let mut sqe = stale();
    sqe.prep_readv(3, &iovecs, 100);
    assert_eq!(
        cells(&sqe),
        (IORING_OP_READV, 0, 0, 3, 100, at, 3, 0xeeee_eeee | 2, 0xeeee_eeee_eeee_eeee, 0, 0xeeee_eeee, 0)
    );
    sqe.prep_readv2(3, &iovecs[1..], 100, 8);
    assert_eq!((sqe.opcode(), sqe.addr(), sqe.len(), sqe.off(), sqe.rw_flags()), (IORING_OP_READV, at + 16, 2, 100, 8));
    sqe.prep_writev(4, &iovecs[..1], u64::MAX);
    assert_eq!((sqe.opcode(), sqe.fd(), sqe.addr(), sqe.len(), sqe.off(), sqe.rw_flags()), (IORING_OP_WRITEV, 4, at, 1, u64::MAX, 8));
    sqe.prep_writev2(4, &iovecs, 0, -2);
    assert_eq!((sqe.opcode(), sqe.len(), sqe.off(), sqe.rw_flags(), sqe.op_flags()), (IORING_OP_WRITEV, 3, 0, -2, 0xffff_fffe));
}

#[test]
fn message_transfers() {
    let mut msg = libc::msghdr {
        msg_name: std::ptr::null_mut(),
        msg_namelen: 0,
        msg_iov: std::ptr::null_mut(),
        msg_iovlen: 0,
        msg_control: std::ptr::null_mut(),
        msg_controllen: 0,
        msg_flags: 0,
    };
    let at = std::ptr::from_ref(&msg).addr() as u64;
    let mut sqe = stale();
    sqe.prep_recvmsg(6, &mut msg, 0x40);
    assert_eq!(
        cells(&sqe),
        (IORING_OP_RECVMSG, 0, 0, 6, 0, at, 1, 0x40, 0xeeee_eeee_eeee_eeee, 0, 0xeeee_eeee, 0)
    );
    sqe.prep_recvmsg_multishot(6, &mut msg, 0);
    assert_eq!((sqe.opcode(), sqe.ioprio(), sqe.addr(), sqe.len(), sqe.op_flags()), (IORING_OP_RECVMSG, 2, at, 1, 0));
    sqe.prep_sendmsg(7, &msg, 0x4000);
    assert_eq!(
        (sqe.opcode(), sqe.ioprio(), sqe.fd(), sqe.addr(), sqe.len(), sqe.off(), sqe.op_flags()),
        (IORING_OP_SENDMSG, 0, 7, at, 1, 0, 0x4000)
    );
    sqe.prep_sendmsg_zc(7, &msg, 1);
    assert_eq!((sqe.opcode(), sqe.fd(), sqe.addr(), sqe.len(), sqe.op_flags()), (IORING_OP_SENDMSG_ZC, 7, at, 1, 1));
}

#[test]
fn buffer_length_is_cut_to_32_bits() {
    let huge = [(); (1usize << 32) + 5];
    let mut sqe = IoUringSqe::zeroed();
    sqe.prep_rw_buf(1, 2, Some(&huge[..]), 0);
    assert_eq!(sqe.len(), 5);
    sqe.prep_rw_buf(1, 2, Some(&huge[..1 << 32]), 0);
    assert_eq!(sqe.len(), 0);
    sqe.prep_rw_buf(1, 2, Some(&huge[6..]), 0);
    assert_eq!(sqe.len(), u32::MAX);
}

#[test]
fn narrow_cells_keep_the_low_bits() {
    let mut buf = [0u8; 1];
    let mut sqe = IoUringSqe::zeroed();
    sqe.prep_read_fixed(1, &mut buf, 0, -1);
    assert_eq!(sqe.buf_index(), 0xffff);
    sqe.prep_write_fixed(1, &mut buf, 0, 0x7fff_0001);
    assert_eq!(sqe.buf_index(), 1);
    sqe.prep_send_zc(1, &mut buf, 0, 0xffff_ffff);
    assert_eq!(sqe.ioprio(), 0xffff);
    sqe.prep_send_zc_fixed(1, &mut buf, 0, 0x1_0000, 0x1_0000);
    assert_eq!((sqe.ioprio(), sqe.buf_index()), (4, 0));
    rask_liburing::prep::io_uring_prep_rw_null(0xffff_ff13, &mut sqe, 0, 0, 0);
    assert_eq!(sqe.opcode(), 0x13);
}
