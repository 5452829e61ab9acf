use fd_passing::protocol::{
    build_send_plan, check_header_present, finish_receive, make_control_buffer, recv_outcome,
    send_outcome, validate_header, FormatIssue, TransferError, PAYLOAD_LEN,
};
use fd_passing::types::{FdKind, TaggedFd};
use fd_passing::utils::{compute_bufspace, compute_msglen};

use libc::{SCM_RIGHTS, SOL_SOCKET};

fn header() -> usize {
    std::mem::size_of::<libc::cmsghdr>()
}

#[test]
fn send_of_exactly_four_bytes_succeeds() {
    assert!(send_outcome(4, String::new()).is_ok());
}

#[test]
fn short_send_is_incomplete() {
    for sent in [0isize, 1, 2, 3, 5] {
        let r = send_outcome(sent, String::new());
        assert_eq!(r, Err(TransferError::IncompleteSend));
    }
}

#[test]
fn failed_send_carries_the_os_description() {
    let r = send_outcome(-1, String::from("connection reset"));
    assert_eq!(r, Err(TransferError::OsError(String::from("connection reset"))));
}

#[test]
fn receive_of_exactly_four_bytes_succeeds() {
    assert!(recv_outcome(4, String::new()).is_ok());
}

#[test]
fn wrong_receive_size_is_rejected() {
    for nread in [0isize, 1, 3, 5, 24] {
        let r = recv_outcome(nread, String::new());
        assert_eq!(r, Err(TransferError::UnexpectedSize));
    }
}

#[test]
fn failed_receive_carries_the_os_description() {
    let r = recv_outcome(-1, String::from("would block"));
    assert_eq!(r, Err(TransferError::OsError(String::from("would block"))));
}

#[test]
fn short_control_data_means_no_header_to_read() {
    let hdr = header();
    assert_eq!(
        check_header_present(0),
        Err(TransferError::FormatMismatch(FormatIssue::ShortMessage))
    );
    assert_eq!(
        check_header_present(hdr - 1),
        Err(TransferError::FormatMismatch(FormatIssue::ShortMessage))
    );
    assert!(check_header_present(hdr).is_ok());
}

#[test]
fn exact_message_validates() {
    let controllen = compute_bufspace(PAYLOAD_LEN);
    let r = validate_header(controllen, SOL_SOCKET, SCM_RIGHTS, SOL_SOCKET, SCM_RIGHTS);
    assert!(r.is_ok());
}

#[test]
fn control_length_one_byte_long_is_rejected() {
    let controllen = compute_bufspace(PAYLOAD_LEN) + 1;
    let r = validate_header(controllen, SOL_SOCKET, SCM_RIGHTS, SOL_SOCKET, SCM_RIGHTS);
    assert_eq!(r, Err(TransferError::FormatMismatch(FormatIssue::TooLong)));
}

#[test]
fn control_length_one_byte_short_is_rejected() {
    let controllen = compute_bufspace(PAYLOAD_LEN) - 1;
    let r = validate_header(controllen, SOL_SOCKET, SCM_RIGHTS, SOL_SOCKET, SCM_RIGHTS);
    assert_eq!(r, Err(TransferError::FormatMismatch(FormatIssue::TooShort)));
}

#[test]
fn wrong_level_or_type_is_rejected() {
    let controllen = compute_bufspace(PAYLOAD_LEN);
    let wrong_level = validate_header(
        controllen,
        SOL_SOCKET + 1,
        SCM_RIGHTS,
        SOL_SOCKET,
        SCM_RIGHTS,
    );
    assert_eq!(
        wrong_level,
        Err(TransferError::FormatMismatch(FormatIssue::WrongKind))
    );
    let wrong_type = validate_header(
        controllen,
        SOL_SOCKET,
        SCM_RIGHTS + 1,
        SOL_SOCKET,
        SCM_RIGHTS,
    );
    assert_eq!(
        wrong_type,
        Err(TransferError::FormatMismatch(FormatIssue::WrongKind))
    );
}

#[test]
fn plan_lays_out_the_fixed_geometry() {
    let plan = build_send_plan(TaggedFd { kind: FdKind::File, fd: 12 }, SOL_SOCKET, SCM_RIGHTS);
    assert_eq!(plan.buf_len, compute_bufspace(PAYLOAD_LEN));
    assert_eq!(plan.cmsg_len, compute_msglen(PAYLOAD_LEN));
    assert_eq!(plan.cmsg_level, SOL_SOCKET);
    assert_eq!(plan.cmsg_type, SCM_RIGHTS);
    assert_eq!(plan.fd, 12);
    assert_eq!(plan.tag, 0);
    assert_eq!(plan.payload_len, 4);
}

#[test]
fn control_buffer_is_sized_and_zeroed() {
    let buf = make_control_buffer();
    assert_eq!(buf.len(), compute_bufspace(PAYLOAD_LEN));
    assert!(buf.iter().all(|&b| b == 0));
}

#[test]
fn unknown_tag_surfaces_as_its_own_error() {
    assert_eq!(finish_receive(7, 3), Err(TransferError::UnknownDescriptorKind));
    assert_eq!(finish_receive(-1, 3), Err(TransferError::UnknownDescriptorKind));
    assert_eq!(finish_receive(i32::MAX, 3), Err(TransferError::UnknownDescriptorKind));
}

#[test]
fn known_tag_reconstructs_the_pair() {
    let got = finish_receive(3, 27).expect("known tag");
    assert_eq!(got, TaggedFd { kind: FdKind::UdpSocket, fd: 27 });
}

#[test]
fn planned_message_round_trips_for_every_kind() {
    let kinds = vec![
        FdKind::File,
        FdKind::TcpStream,
        FdKind::TcpListener,
        FdKind::UdpSocket,
        FdKind::UnixStream,
        FdKind::UnixListener,
        FdKind::UnixDatagram,
    ];
    for kind in kinds {
        let plan = build_send_plan(TaggedFd { kind, fd: 33 }, SOL_SOCKET, SCM_RIGHTS);
        // The kernel reports the payload count and the control length the
        // sender produced; every receiver check must pass and the same
        // descriptor pair must come back.
        assert!(send_outcome(plan.payload_len as isize, String::new()).is_ok());
        assert!(recv_outcome(plan.payload_len as isize, String::new()).is_ok());
        assert!(check_header_present(plan.buf_len).is_ok());
        let v = validate_header(
            plan.buf_len,
            plan.cmsg_level,
            plan.cmsg_type,
            SOL_SOCKET,
            SCM_RIGHTS,
        );
        assert!(v.is_ok());
        let got = finish_receive(plan.tag, plan.fd).expect("round trip");
        assert_eq!(got, TaggedFd { kind, fd: 33 });
    }
}
