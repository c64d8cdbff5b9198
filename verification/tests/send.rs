use iomsg::cmsg::{cmsg_buffer_fds_space, CMSG_HDR_SIZE, FD_SIZE};
use iomsg::error::CMsgBufferTooSmallError;
use iomsg::msghdr::MsgHdr;
use iomsg::platform::Platform;

fn rights_record(fds: &[i32]) -> Vec<u8> {
    let mut bytes = Vec::new();
    bytes.extend_from_slice(&((CMSG_HDR_SIZE + FD_SIZE * fds.len()) as u64).to_ne_bytes());
    bytes.extend_from_slice(&libc::SOL_SOCKET.to_ne_bytes());
    bytes.extend_from_slice(&libc::SCM_RIGHTS.to_ne_bytes());
    for fd in fds {
        bytes.extend_from_slice(&fd.to_ne_bytes());
    }
    bytes
}

#[test]
fn start_send_encode_fds_with_small_buffer_is_error() {
    let control_buffer = vec![0u8; cmsg_buffer_fds_space(1)];
    let fds = [1, 2, 3, 4, 5, 6, 7, 8, 9, 10];

    let sut = MsgHdr::from_io_slice(0, control_buffer);
    let result = sut.encode_fds(&fds);

    assert!(result.is_err());
}

#[test]
fn send_ready_send_on_non_socket_is_error() {
    let control_buffer = vec![0u8; 0];

    let sut = MsgHdr::from_io_slice(1, control_buffer)
        .encode_fds(&[])
        .expect("Can't encode fds");
    // What the kernel answers when the target of the call is a plain file.
    let result = sut.send(-1, libc::ENOTSOCK);

    assert!(result.is_err());
}

#[test]
fn send_failure_carries_the_error_number() {
    let sut = MsgHdr::from_io_slice(1, vec![0u8; 64])
        .encode_fds(&[3])
        .expect("Can't encode fds");

    let error = sut.send(-1, libc::EBADF).expect_err("the call failed");

    assert_eq!(error.code, libc::EBADF);
}

#[test]
fn send_end_reports_bytes_and_descriptors() {
    let sut = MsgHdr::from_io_slice(2, vec![0u8; 64])
        .encode_fds(&[3, 4, 5])
        .expect("Can't encode fds");
    assert_eq!(sut.fds_count(), 3);

    let end = sut.send(5, 0).expect("the call succeeded");

    assert_eq!(end.bytes_sent(), 5);
    assert_eq!(end.fds_sent(), 3);
    assert_eq!(end.iov_len(), 2);
}

#[test]
fn send_of_nothing_succeeds() {
    let end = MsgHdr::from_io_slice(0, Vec::new())
        .encode_fds(&[])
        .expect("Can't encode fds")
        .send(0, libc::EINTR)
        .expect("a return value of 0 is no failure");

    assert_eq!(end.bytes_sent(), 0);
    assert_eq!(end.fds_sent(), 0);
}

#[test]
fn new_header_uses_the_whole_buffer() {
    let sut = MsgHdr::from_io_slice(3, vec![9u8; 40]);

    assert_eq!(sut.iov_len(), 3);
    assert_eq!(sut.control_len(), 40);
    assert_eq!(sut.control(), &[9u8; 40][..]);
    assert_eq!(sut.platform(), Platform::native());
}

#[test]
fn encode_writes_one_record_and_leaves_the_rest() {
    let fds = [7, 8, -1];
    let sut = MsgHdr::from_io_slice(0, vec![0xaau8; 64]);

    let ready = sut.encode_fds(&fds).expect("Can't encode fds");

    let record = rights_record(&fds);
    assert_eq!(record.len(), 28);
    assert_eq!(&ready.control()[..28], &record[..]);
    assert_eq!(&ready.control()[28..], &[0xaau8; 36][..]);
    assert_eq!(ready.control_len(), 32);
    assert_eq!(ready.control_len(), cmsg_buffer_fds_space(3));
    assert_eq!(ready.fds_count(), 3);
}

#[test]
fn encode_declares_exactly_what_was_written() {
    let ready = MsgHdr::from_io_slice(0, vec![0u8; 1024])
        .encode_fds(&[5])
        .expect("Can't encode fds");

    let mut len = [0u8; 8];
    len.copy_from_slice(&ready.control()[..8]);
    assert_eq!(u64::from_ne_bytes(len), 20);
    assert_eq!(ready.control_len(), 24);
}

#[test]
fn encode_of_no_descriptors_omits_ancillary_data() {
    let ready = MsgHdr::from_io_slice(0, vec![0u8; 64])
        .encode_fds(&[])
        .expect("Can't encode fds");

    assert_eq!(ready.control_len(), 0);
    assert_eq!(ready.fds_count(), 0);
}

#[test]
fn encode_of_no_descriptors_needs_no_buffer() {
    let ready = MsgHdr::from_io_slice(0, Vec::new())
        .encode_fds(&[])
        .expect("Can't encode fds");

    assert_eq!(ready.control_len(), 0);
    assert_eq!(ready.control().len(), 0);
}

#[test]
fn encode_needs_room_for_header_and_ids() {
    let fds = [1, 2, 3];
    let exact = MsgHdr::from_io_slice(0, vec![0u8; 28]).encode_fds(&fds);
    let short = MsgHdr::from_io_slice(0, vec![0u8; 27]).encode_fds(&fds);
    let no_header = MsgHdr::from_io_slice(0, vec![0u8; 15]).encode_fds(&[1]);

    assert!(exact.is_ok());
    assert_eq!(short.err(), Some(CMsgBufferTooSmallError::new()));
    assert_eq!(no_header.err(), Some(CMsgBufferTooSmallError::new()));
}

#[test]
fn buffer_too_small_error_says_so() {
    let error = MsgHdr::from_io_slice(0, vec![0u8; 16])
        .encode_fds(&[1])
        .expect_err("no room for an id");

    assert_eq!(
        error.message(),
        "The control buffer passed to MsgHdr was too small for the number of file descriptors"
    );
}

#[test]
fn fds_space_counts_header_and_padding() {
    assert_eq!(cmsg_buffer_fds_space(0), 16);
    assert_eq!(cmsg_buffer_fds_space(1), 24);
    assert_eq!(cmsg_buffer_fds_space(2), 24);
    assert_eq!(cmsg_buffer_fds_space(3), 32);
    assert_eq!(cmsg_buffer_fds_space(4), 32);
    assert_eq!(cmsg_buffer_fds_space(253), 16 + 1016);
}

#[test]
fn layout_is_that_of_the_platform() {
    assert_eq!(CMSG_HDR_SIZE, std::mem::size_of::<libc::cmsghdr>());
    assert_eq!(FD_SIZE, std::mem::size_of::<libc::c_int>());
    assert_eq!(8, std::mem::size_of::<libc::size_t>());
}

#[test]
fn native_platform_reads_libc() {
    let platform = Platform::native();

    assert_eq!(platform.sol_socket, libc::SOL_SOCKET);
    assert_eq!(platform.scm_rights, libc::SCM_RIGHTS);
    assert_eq!(platform.msg_ctrunc, libc::MSG_CTRUNC);
}
