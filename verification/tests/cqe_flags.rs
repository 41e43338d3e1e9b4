use rask_liburing::cqe::io_uring_cqe_get_data64;
use rask_liburing::cqe::CompletionEntry;
use rask_liburing::cqe::CqeFlags;
use rask_liburing::cqe::IoUringCqe;

#[test]
fn buffer_flag_equals_1() {
    assert_eq!(CqeFlags::buffer().bits(), 1 << 0);
}

#[test]
fn more_flag_equals_2() {
    assert_eq!(CqeFlags::more().bits(), 1 << 1);
}

#[test]
fn sock_non_empty_flag_equals_4() {
    assert_eq!(CqeFlags::sock_non_empty().bits(), 1 << 2);
}

#[test]
fn notification_flag_equals_8() {
    assert_eq!(CqeFlags::notification().bits(), 1 << 3);
}

#[test]
fn buffer_id_is_the_upper_half_when_the_buffer_bit_is_set() {
    assert_eq!(CqeFlags::from_bits_retain(0x1234_0001).get_buffer_id(), Some(0x1234));
    assert_eq!(CqeFlags::from_bits_retain(0xffff_0001).get_buffer_id(), Some(0xffff));
    assert_eq!(CqeFlags::from_bits_retain(0x0000_0001).get_buffer_id(), Some(0));
    assert_eq!(CqeFlags::from_bits_retain(0x8000_000f).get_buffer_id(), Some(0x8000));
}

#[test]
fn buffer_id_for_every_high_half() {
    let mut high: u32 = 0;
    while high <= 0xffff {
        let set = CqeFlags::from_bits_retain((high << 16) | 1 | 2);
        assert_eq!(set.get_buffer_id(), Some(high as u16));
        let clear = CqeFlags::from_bits_retain((high << 16) | 2 | 4 | 8);
        assert_eq!(clear.get_buffer_id(), None);
        high += 257;
    }
}

#[test]
fn buffer_id_is_none_when_the_buffer_bit_is_clear() {
    assert_eq!(CqeFlags::from_bits_retain(0x1234_0000).get_buffer_id(), None);
    assert_eq!(CqeFlags::from_bits_retain(0xffff_fffe).get_buffer_id(), None);
    assert_eq!(CqeFlags::from_bits_retain(0).get_buffer_id(), None);
}

#[test]
fn flags_keep_every_bit() {
    assert_eq!(CqeFlags::from_bits_retain(0xdead_beef).bits(), 0xdead_beef);
    assert_eq!(CqeFlags::from_bits_retain(0).bits(), 0);
}

#[test]
fn contains_asks_for_every_bit_of_the_other() {
    let flags = CqeFlags::from_bits_retain(0b0110);
    assert!(flags.contains(CqeFlags::more()));
    assert!(flags.contains(CqeFlags::sock_non_empty()));
    assert!(!flags.contains(CqeFlags::buffer()));
    assert!(!flags.contains(CqeFlags::notification()));
    assert!(flags.contains(CqeFlags::from_bits_retain(0b0110)));
    assert!(!flags.contains(CqeFlags::from_bits_retain(0b0111)));
    assert!(flags.contains(CqeFlags::from_bits_retain(0)));
}

#[test]
fn completion_reads_back_what_it_was_made_of() {
    let cqe = IoUringCqe::new(0xfeed_f00d_0000_0001, -11, 0x0003_0003);
    assert_eq!(cqe.get_data(), 0xfeed_f00d_0000_0001);
    assert_eq!(io_uring_cqe_get_data64(&cqe), 0xfeed_f00d_0000_0001);
    assert_eq!(cqe.result(), -11);
    assert_eq!(cqe.flags().bits(), 0x0003_0003);
    assert_eq!(cqe.flags().get_buffer_id(), Some(3));
    assert!(cqe.flags().contains(CqeFlags::more()));
}

#[test]
fn completion_entry_reads_the_completion_it_borrows() {
    let cqe = IoUringCqe::new(42, 512, 2);
    let entry = CompletionEntry::new(&cqe);
    assert_eq!(entry.get_user_data(), 42);
    assert_eq!(entry.result(), 512);
    assert_eq!(entry.flags(), CqeFlags::more());
    assert_eq!(entry.flags().get_buffer_id(), None);
}
