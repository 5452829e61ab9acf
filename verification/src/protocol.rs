//! The ancillary transfer protocol: the exact message the sender lays
//! out, and the strict validation of what the receiver's kernel call
//! reported before any descriptor changes hands.

use vstd::prelude::*;

use crate::types::{decode, encode, spec_kind_of, spec_tag_of, FdKind, TaggedFd};
use crate::utils::{
    compute_bufspace, compute_msglen, spec_aligned, spec_bufspace, spec_header_size, spec_msglen,
    spec_word,
};

verus! {

broadcast use vstd::layout::layout_of_primitives;

/// Bytes of regular payload that accompany the control message: the tag,
/// carried as one native 32-bit integer, because the transmit primitive
/// demands at least one byte of ordinary payload alongside ancillary data.
pub const PAYLOAD_LEN: usize = 4;

/// Which exact-match expectation a received control message broke.
#[derive(Clone, Copy, Debug, PartialEq, Eq, Structural)]
pub enum FormatIssue {
    /// The kernel attested less than one header's worth of control data,
    /// so there is no header to read.
    ShortMessage,
    /// The header's level or type is not the expected socket-level
    /// pass-descriptors pair.
    WrongKind,
    /// More control data arrived than one header plus one payload: a
    /// chained second entry this protocol never produces.
    TooLong,
    /// Less control data arrived than one header plus one payload.
    TooShort,
}

/// Why a transfer failed.
#[derive(Debug, PartialEq, Eq)]
pub enum TransferError {
    /// The kernel call failed; carries the platform's human-readable
    /// description of the error code.
    OsError(String),
    /// The send primitive reported fewer regular bytes than the fixed
    /// payload; such a send is not safely resumable.
    IncompleteSend,
    /// The receive primitive reported a regular-payload size other than
    /// the fixed one.
    UnexpectedSize,
    /// The control message did not match the single-descriptor protocol
    /// exactly.
    FormatMismatch(FormatIssue),
    /// The regular payload carried a tag outside the known set.
    UnknownDescriptorKind,
}

/// Everything the sender writes into the one outbound message: the sizes
/// of the zeroed control buffer, the three header fields, and the two
/// values carried — the raw descriptor number right after the header, and
/// the tag as the regular payload.
pub struct SendPlan {
    /// Length of the control buffer, zeroed before the header is written.
    pub buf_len: usize,
    /// The header's declared-length field: aligned header plus unpadded
    /// payload.
    pub cmsg_len: usize,
    /// The header's protocol-level field.
    pub cmsg_level: i32,
    /// The header's message-type field.
    pub cmsg_type: i32,
    /// The raw descriptor number, written in the four bytes after the
    /// header.
    pub fd: i32,
    /// The kind's tag, sent as the regular payload.
    pub tag: i32,
    /// Bytes of regular payload to send.
    pub payload_len: usize,
}

/// Lays out the one message that transfers `descriptor`, given the
/// platform's socket-level and pass-descriptors constants (resolved once
/// by the caller, not re-derived per call). Consumes the descriptor:
/// from here on only the plan's raw number names the resource.
pub fn build_send_plan(descriptor: TaggedFd, level: i32, pass_fd_type: i32) -> (p: SendPlan)
    ensures
        p.buf_len as int == spec_bufspace(PAYLOAD_LEN as int),
        p.cmsg_len as int == spec_msglen(PAYLOAD_LEN as int),
        p.cmsg_level == level,
        p.cmsg_type == pass_fd_type,
        p.fd == descriptor.fd,
        p.tag as int == spec_tag_of(descriptor.kind),
        p.payload_len == PAYLOAD_LEN,
{
    let (fd, tag) = encode(descriptor);
    SendPlan {
        buf_len: compute_bufspace(PAYLOAD_LEN),
        cmsg_len: compute_msglen(PAYLOAD_LEN),
        cmsg_level: level,
        cmsg_type: pass_fd_type,
        fd,
        tag,
        payload_len: PAYLOAD_LEN,
    }
}

/// Allocates the control buffer both ends use for the fixed payload:
/// sized to the exact geometry and zeroed, so that the padding bytes
/// after the payload never carry stale data.
pub fn make_control_buffer() -> (buf: Vec<u8>)
    ensures
        buf@.len() == spec_bufspace(PAYLOAD_LEN as int),
        forall|i: int| 0 <= i < buf@.len() ==> buf@[i] == 0u8,
{
    let n: usize = compute_bufspace(PAYLOAD_LEN);
    let mut buf: Vec<u8> = Vec::new();
    while buf.len() < n
        invariant
            buf@.len() <= n,
            n as int == spec_bufspace(PAYLOAD_LEN as int),
            forall|i: int| 0 <= i < buf@.len() ==> buf@[i] == 0u8,
        decreases n - buf.len(),
    {
        buf.push(0);
    }
    buf
}

/// Judges what the send primitive reported. Exactly the fixed payload
/// size is success; a negative return is the kernel's failure, described
/// by `os_err`; any other count is a short send, which is not retried
/// because ancillary data rides only with the first regular byte.
pub fn send_outcome(sent: isize, os_err: String) -> (r: Result<(), TransferError>)
    ensures
        r is Ok <==> sent == PAYLOAD_LEN,
        sent < 0 ==> r == Err::<(), TransferError>(TransferError::OsError(os_err)),
        sent >= 0 && sent != PAYLOAD_LEN ==> r == Err::<(), TransferError>(
            TransferError::IncompleteSend,
        ),
{
    if sent < 0 {
        Err(TransferError::OsError(os_err))
    } else if sent == PAYLOAD_LEN as isize {
        Ok(())
    } else {
        Err(TransferError::IncompleteSend)
    }
}

/// Judges what the receive primitive reported, before anything in the
/// control buffer is looked at. Exactly the fixed payload size is
/// success; a negative return is the kernel's failure, described by
/// `os_err`; any other count is the wrong message size.
pub fn recv_outcome(nread: isize, os_err: String) -> (r: Result<(), TransferError>)
    ensures
        r is Ok <==> nread == PAYLOAD_LEN,
        nread < 0 ==> r == Err::<(), TransferError>(TransferError::OsError(os_err)),
        nread >= 0 && nread != PAYLOAD_LEN ==> r == Err::<(), TransferError>(
            TransferError::UnexpectedSize,
        ),
{
    if nread < 0 {
        Err(TransferError::OsError(os_err))
    } else if nread == PAYLOAD_LEN as isize {
        Ok(())
    } else {
        Err(TransferError::UnexpectedSize)
    }
}

/// The receiver's verdict on the attested control data: the kernel-
/// reported control length, and — once one header's worth arrived — the
/// header's level and type fields, held against the expected constants
/// and the exact fixed geometry, in order.
pub open spec fn spec_check_control(
    controllen: int,
    level: int,
    ctype: int,
    expected_level: int,
    expected_type: int,
) -> Option<FormatIssue> {
    if controllen < spec_header_size() {
        Some(FormatIssue::ShortMessage)
    } else if level != expected_level || ctype != expected_type {
        Some(FormatIssue::WrongKind)
    } else if controllen > spec_bufspace(PAYLOAD_LEN as int) {
        Some(FormatIssue::TooLong)
    } else if controllen < spec_bufspace(PAYLOAD_LEN as int) {
        Some(FormatIssue::TooShort)
    } else {
        None
    }
}

/// First validation step: whether the kernel attested at least one
/// header's worth of control data. Until this passes, the header fields
/// must not be read at all — there may be no header behind them.
pub fn check_header_present(controllen: usize) -> (r: Result<(), TransferError>)
    ensures
        r is Ok <==> controllen as int >= spec_header_size(),
        r is Err ==> r == Err::<(), TransferError>(
            TransferError::FormatMismatch(FormatIssue::ShortMessage),
        ),
{
    let hdr: usize = core::mem::size_of::<libc::cmsghdr>();
    if controllen >= hdr {
        Ok(())
    } else {
        Err(TransferError::FormatMismatch(FormatIssue::ShortMessage))
    }
}

/// Remaining validation steps, once one header's worth of control data
/// was attested and its fields were read: the level/type pair must be the
/// expected one, and the attested length must equal the fixed geometry
/// exactly — longer would smuggle in a chained second entry, shorter
/// would truncate the payload.
pub fn validate_header(
    controllen: usize,
    level: i32,
    ctype: i32,
    expected_level: i32,
    expected_type: i32,
) -> (r: Result<(), TransferError>)
    requires
        controllen as int >= spec_header_size(),
    ensures
        r is Ok <==> spec_check_control(
            controllen as int,
            level as int,
            ctype as int,
            expected_level as int,
            expected_type as int,
        ) is None,
        r matches Err(e) ==> (spec_check_control(
            controllen as int,
            level as int,
            ctype as int,
            expected_level as int,
            expected_type as int,
        ) matches Some(issue) && e == TransferError::FormatMismatch(issue)),
{
    if level != expected_level || ctype != expected_type {
        return Err(TransferError::FormatMismatch(FormatIssue::WrongKind));
    }
    let expected: usize = compute_bufspace(PAYLOAD_LEN);
    if controllen > expected {
        Err(TransferError::FormatMismatch(FormatIssue::TooLong))
    } else if controllen < expected {
        Err(TransferError::FormatMismatch(FormatIssue::TooShort))
    } else {
        Ok(())
    }
}

/// Final step on a fully validated message: reconstructs the typed pair
/// from the tag in the regular payload and the raw number that followed
/// the header. An unknown tag is surfaced as its own failure, and the raw
/// number then carries no ownership.
pub fn finish_receive(tag: i32, raw: i32) -> (r: Result<TaggedFd, TransferError>)
    ensures
        r is Ok <==> 0 <= tag <= 6,
        r matches Ok(t) ==> Some(t.kind) == spec_kind_of(tag as int) && t.fd == raw,
        !(0 <= tag <= 6) ==> r == Err::<TaggedFd, TransferError>(
            TransferError::UnknownDescriptorKind,
        ),
{
    match decode(tag, raw) {
        Some(t) => Ok(t),
        None => Err(TransferError::UnknownDescriptorKind),
    }
}

/// Law: a message laid out by the sender passes every receiver check and
/// names the descriptor kind that was encoded — for any kind and whatever
/// the platform's two ancillary constants are, the sender's buffer length
/// satisfies the receiver's exact-match validation, and decoding the sent
/// tag yields the kind back.
pub proof fn lemma_round_trip(kind: FdKind, level: int, pass_fd_type: int)
    ensures
        spec_bufspace(PAYLOAD_LEN as int) >= spec_header_size(),
        spec_check_control(
            spec_bufspace(PAYLOAD_LEN as int),
            level,
            pass_fd_type,
            level,
            pass_fd_type,
        ) is None,
        spec_kind_of(spec_tag_of(kind)) == Some(kind),
{
    lemma_aligned_geq(PAYLOAD_LEN as int);
    lemma_aligned_geq(spec_header_size());
}

/// Law: tampering is rejected — any attested control length other than
/// the exact fixed geometry, or any level/type pair other than the
/// expected one, fails validation; and when less than one header's worth
/// is attested, the verdict does not depend on the header fields at all.
pub proof fn lemma_tamper_rejected(
    controllen: int,
    level: int,
    ctype: int,
    expected_level: int,
    expected_type: int,
)
    requires
        controllen != spec_bufspace(PAYLOAD_LEN as int) || level != expected_level || ctype
            != expected_type,
    ensures
        spec_check_control(controllen, level, ctype, expected_level, expected_type) is Some,
        controllen < spec_header_size() ==> forall|l2: int, t2: int|
            #[trigger] spec_check_control(controllen, l2, t2, expected_level, expected_type)
                == Some(FormatIssue::ShortMessage),
{
}

/// Rounding up to the alignment unit never shrinks a non-negative size.
proof fn lemma_aligned_geq(n: int)
    requires
        n >= 0,
    ensures
        spec_aligned(n) >= n,
{
    assert(spec_word() == 4 || spec_word() == 8);
    assert(n % spec_word() >= 0);
}

} // verus!
