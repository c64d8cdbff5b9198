use iomsg::cmsg::{
    align, data_len, first_cmsg, read_header, shrink_data_len, write_fds, write_header, CMsgHdr,
};
use iomsg::error::{call_res, CMsgBufferTooSmallError, OsError};
use iomsg::fd::Fd;
use iomsg::native::{read_i32, read_u64, write_bytes, write_i32, write_u64};

#[test]
fn call_res_turns_the_sentinel_into_the_error() {
    assert_eq!(call_res(-1, 9), Err(OsError { code: 9 }));
    assert_eq!(call_res(-1, 0), Err(OsError { code: 0 }));
}

#[test]
fn call_res_passes_other_values_through() {
    assert_eq!(call_res(0, 9), Ok(0));
    assert_eq!(call_res(1, 9), Ok(1));
    assert_eq!(call_res(4096, 0), Ok(4096));
    assert_eq!(call_res(-2, 9), Ok(-2));
    assert_eq!(call_res(isize::MAX, 9), Ok(isize::MAX));
    assert_eq!(call_res(isize::MIN, 9), Ok(isize::MIN));
}

#[test]
fn error_message_names_the_buffer() {
    let error = CMsgBufferTooSmallError::new();

    assert_eq!(
        error.message(),
        "The control buffer passed to MsgHdr was too small for the number of file descriptors"
    );
}

#[test]
fn fd_hands_over_what_it_was_given() {
    let mut fd = Fd::new(7);

    assert!(fd.is_open());
    assert_eq!(fd.into_raw_fd(), 7);
    assert!(!fd.is_open());
}

#[test]
fn fd_gives_up_its_id_once() {
    let mut fd = Fd::new(-3);

    assert_eq!(fd.disown(), Some(-3));
    assert_eq!(fd.disown(), None);
    assert!(!fd.is_open());
}

#[test]
fn integers_are_stored_as_the_machine_stores_them() {
    let mut buf = vec![0xeeu8; 16];

    write_i32(&mut buf, 2, -2);
    write_u64(&mut buf, 7, 0x0102_0304_0506_0708);

    let mut expected = vec![0xeeu8; 16];
    expected[2..6].copy_from_slice(&(-2i32).to_ne_bytes());
    expected[7..15].copy_from_slice(&0x0102_0304_0506_0708u64.to_ne_bytes());
    assert_eq!(buf, expected);
    assert_ne!(&buf[7..15], &[0u8; 8][..]);
}

#[test]
fn integers_are_read_as_the_machine_stores_them() {
    let mut buf = vec![0u8; 3];
    buf.extend_from_slice(&0x1234_5678i32.to_ne_bytes());
    buf.extend_from_slice(&i32::MIN.to_ne_bytes());
    buf.extend_from_slice(&u64::MAX.to_ne_bytes());
    buf.extend_from_slice(&0x1122_3344_5566_7788u64.to_ne_bytes());

    assert_eq!(read_i32(&buf, 3), 0x1234_5678);
    assert_eq!(read_i32(&buf, 7), i32::MIN);
    assert_eq!(read_u64(&buf, 11), u64::MAX);
    assert_eq!(read_u64(&buf, 19), 0x1122_3344_5566_7788);
}

#[test]
fn written_integers_read_back() {
    let mut buf = vec![0u8; 12];
    for value in [0, 1, -1, 255, 256, i32::MAX, i32::MIN, 0x0102_0304] {
        write_i32(&mut buf, 1, value);
        assert_eq!(read_i32(&buf, 1), value);
    }
    for value in [0, 1, 255, 256, u64::MAX, 0x0102_0304_0506_0708] {
        write_u64(&mut buf, 3, value);
        assert_eq!(read_u64(&buf, 3), value);
    }
}

#[test]
fn write_bytes_replaces_only_its_range() {
    let mut buf = vec![1u8, 2, 3, 4, 5, 6];

    write_bytes(&mut buf, 2, &[9, 8, 7]);
    write_bytes(&mut buf, 6, &[]);

    assert_eq!(buf, [1, 2, 9, 8, 7, 6]);
}

#[test]
fn header_is_length_level_type() {
    let mut buf = vec![0u8; 24];
    let hdr = CMsgHdr { len: 0x0a0b_0c0d_0e0f, level: -5, typ: 0x0102_0304 };

    write_header(&mut buf, 8, hdr);

    let mut expected = vec![0u8; 8];
    expected.extend_from_slice(&0x0a0b_0c0d_0e0fu64.to_ne_bytes());
    expected.extend_from_slice(&(-5i32).to_ne_bytes());
    expected.extend_from_slice(&0x0102_0304i32.to_ne_bytes());
    assert_eq!(buf, expected);
    assert_eq!(read_header(&buf, 8), hdr);
}

#[test]
fn align_rounds_up_to_eight() {
    assert_eq!(align(0), 0);
    assert_eq!(align(1), 8);
    assert_eq!(align(7), 8);
    assert_eq!(align(8), 8);
    assert_eq!(align(9), 16);
    assert_eq!(align(28), 32);
}

#[test]
fn first_cmsg_declares_the_whole_buffer() {
    let mut buf = vec![0x55u8; 40];

    assert!(first_cmsg(&mut buf, 3, 4));

    assert_eq!(read_header(&buf, 0), CMsgHdr { len: 40, level: 3, typ: 4 });
    assert_eq!(data_len(&buf), 24);
    assert_eq!(&buf[16..], &[0x55u8; 24][..]);
}

#[test]
fn first_cmsg_needs_room_for_a_header() {
    let mut buf = vec![0x55u8; 15];

    assert!(!first_cmsg(&mut buf, 3, 4));

    assert_eq!(buf, [0x55u8; 15]);
}

#[test]
fn shrink_data_len_never_grows_a_record() {
    let mut buf = vec![0u8; 40];
    first_cmsg(&mut buf, 3, 4);

    shrink_data_len(&mut buf, 8);
    assert_eq!(read_header(&buf, 0), CMsgHdr { len: 24, level: 3, typ: 4 });

    shrink_data_len(&mut buf, 12);
    assert_eq!(read_header(&buf, 0).len, 24);

    shrink_data_len(&mut buf, 8);
    assert_eq!(read_header(&buf, 0).len, 24);

    shrink_data_len(&mut buf, 0);
    assert_eq!(read_header(&buf, 0).len, 16);
}

#[test]
fn write_fds_stores_the_ids_after_the_header() {
    let mut buf = vec![0x11u8; 30];

    write_fds(&mut buf, &[6, -7, 8]);

    let mut expected = vec![0x11u8; 16];
    expected.extend_from_slice(&6i32.to_ne_bytes());
    expected.extend_from_slice(&(-7i32).to_ne_bytes());
    expected.extend_from_slice(&8i32.to_ne_bytes());
    expected.extend_from_slice(&[0x11u8; 2]);
    assert_eq!(buf, expected);
}
