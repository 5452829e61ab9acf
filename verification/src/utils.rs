//! Buffer geometry for the ancillary control message.
//!
//! The control buffer embeds one kernel ancillary header followed by a
//! small payload; the kernel expects the header and the buffer as a whole
//! to be padded to the platform's alignment unit for ancillary data (the
//! width of the kernel's size type, one pointer word), while the header's
//! own declared-length field records the unpadded tail.

use vstd::prelude::*;

verus! {

broadcast use vstd::layout::layout_of_primitives;

/// The kernel's ancillary header, `cmsghdr`: a declared length, a protocol
/// level and a message type. Declared here so that its platform-dependent
/// size can stand in the geometry; the crate never reads or writes a value
/// of it — the caller that owns the raw buffer does.
#[verifier::external_type_specification]
#[verifier::external_body]
pub struct ExCmsghdr(libc::cmsghdr);

/// The platform's alignment unit for ancillary data: one pointer word.
pub open spec fn spec_word() -> int {
    vstd::layout::size_of::<usize>() as int
}

/// The size of the kernel's ancillary header on this platform.
pub open spec fn spec_header_size() -> int {
    vstd::layout::size_of::<libc::cmsghdr>() as int
}

/// `n` rounded up to the next multiple of `unit`.
pub open spec fn spec_align_up(n: int, unit: int) -> int
    recommends
        unit > 0,
{
    if n % unit == 0 {
        n
    } else {
        n + unit - n % unit
    }
}

/// `n` rounded up to the platform's ancillary alignment unit.
pub open spec fn spec_aligned(n: int) -> int {
    spec_align_up(n, spec_word())
}

/// Length of a control buffer that holds one aligned header followed by
/// an aligned payload of `len` bytes.
pub open spec fn spec_bufspace(len: int) -> int {
    spec_aligned(len) + spec_aligned(spec_header_size())
}

/// Value of the header's declared-length field for a payload of `len`
/// bytes: the aligned header plus the unpadded payload.
pub open spec fn spec_msglen(len: int) -> int {
    spec_aligned(spec_header_size()) + len
}

/// Rounds `basesz` up to the platform's ancillary alignment unit.
pub fn compute_aligned(basesz: usize) -> (r: usize)
    requires
        basesz + 8 <= usize::MAX,
    ensures
        r as int == spec_aligned(basesz as int),
        basesz <= r,
{
    let unit: usize = core::mem::size_of::<usize>();
    let m: usize = basesz % unit;
    match m {
        0 => basesz,
        _ => basesz + (unit - m),
    }
}

/// Length of the control buffer for an ancillary payload of `len` bytes.
pub fn compute_bufspace(len: usize) -> (r: usize)
    requires
        len + 32 <= isize::MAX,
    ensures
        r as int == spec_bufspace(len as int),
{
    vstd::layout::layout_for_type_is_valid::<libc::cmsghdr>();
    let hdr: usize = core::mem::size_of::<libc::cmsghdr>();
    compute_aligned(len) + compute_aligned(hdr)
}

/// Value for the header's declared-length field with a payload of `len`
/// bytes.
pub fn compute_msglen(len: usize) -> (r: usize)
    requires
        len + 32 <= isize::MAX,
    ensures
        r as int == spec_msglen(len as int),
{
    vstd::layout::layout_for_type_is_valid::<libc::cmsghdr>();
    let hdr: usize = core::mem::size_of::<libc::cmsghdr>();
    compute_aligned(hdr) + len
}

} // verus!
