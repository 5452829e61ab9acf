//! Descriptor tagging: the closed set of descriptor kinds and its fixed
//! bidirectional mapping to small integer tags.

use vstd::prelude::*;

verus! {

/// The semantic kind of a transferred descriptor.
#[derive(Clone, Copy, Debug, PartialEq, Eq, Structural)]
pub enum FdKind {
    File,
    TcpStream,
    TcpListener,
    UdpSocket,
    UnixStream,
    UnixListener,
    UnixDatagram,
}

/// A raw descriptor number together with the kind it stands for.
///
/// This is the protocol's model of a typed handle: the caller that owns
/// the OS resource converts its handle to and from this pair at the
/// boundary of a transfer. The raw number is taken on the caller's word;
/// nothing here checks that it names an open descriptor.
#[derive(Debug, PartialEq, Eq, Structural)]
pub struct TaggedFd {
    pub kind: FdKind,
    pub fd: i32,
}

/// The tag wired for each descriptor kind.
pub open spec fn spec_tag_of(kind: FdKind) -> int {
    match kind {
        FdKind::File => 0,
        FdKind::TcpStream => 1,
        FdKind::TcpListener => 2,
        FdKind::UdpSocket => 3,
        FdKind::UnixStream => 4,
        FdKind::UnixListener => 5,
        FdKind::UnixDatagram => 6,
    }
}

/// The descriptor kind a tag names, if any.
pub open spec fn spec_kind_of(tag: int) -> Option<FdKind> {
    if tag == 0 {
        Some(FdKind::File)
    } else if tag == 1 {
        Some(FdKind::TcpStream)
    } else if tag == 2 {
        Some(FdKind::TcpListener)
    } else if tag == 3 {
        Some(FdKind::UdpSocket)
    } else if tag == 4 {
        Some(FdKind::UnixStream)
    } else if tag == 5 {
        Some(FdKind::UnixListener)
    } else if tag == 6 {
        Some(FdKind::UnixDatagram)
    } else {
        None
    }
}

/// Constructs the tagged pair for a known tag; yields nothing for any
/// tag outside the seven known ones.
pub fn decode(tag: i32, raw: i32) -> (r: Option<TaggedFd>)
    ensures
        r is Some <==> 0 <= tag <= 6,
        r matches Some(t) ==> Some(t.kind) == spec_kind_of(tag as int) && t.fd == raw,
{
    let kind: Option<FdKind> = match tag {
        0 => Some(FdKind::File),
        1 => Some(FdKind::TcpStream),
        2 => Some(FdKind::TcpListener),
        3 => Some(FdKind::UdpSocket),
        4 => Some(FdKind::UnixStream),
        5 => Some(FdKind::UnixListener),
        6 => Some(FdKind::UnixDatagram),
        _ => None,
    };
    match kind {
        Some(k) => Some(TaggedFd { kind: k, fd: raw }),
        None => None,
    }
}

/// Consumes the tagged pair, handing back the raw descriptor number and
/// the tag for its kind. The pair is moved from: after this call only
/// the raw number names the resource.
pub fn encode(value: TaggedFd) -> (r: (i32, i32))
    ensures
        r.0 == value.fd,
        r.1 as int == spec_tag_of(value.kind),
{
    let tag: i32 = match value.kind {
        FdKind::File => 0,
        FdKind::TcpStream => 1,
        FdKind::TcpListener => 2,
        FdKind::UdpSocket => 3,
        FdKind::UnixStream => 4,
        FdKind::UnixListener => 5,
        FdKind::UnixDatagram => 6,
    };
    (value.fd, tag)
}

/// Law: the tag mapping is a bijection between the seven kinds and the
/// tags 0 through 6 — decoding the tag of a kind gives that kind back,
/// and encoding the kind of a known tag gives that tag back.
pub proof fn lemma_tag_bijection()
    ensures
        forall|kind: FdKind| spec_kind_of(spec_tag_of(kind)) == Some(kind),
        forall|tag: int|
            0 <= tag <= 6 ==> (#[trigger] spec_kind_of(tag) matches Some(kind)
                && spec_tag_of(kind) == tag),
{
}

/// Law: every tag outside 0 through 6 names no kind.
pub proof fn lemma_unknown_tag(tag: int)
    requires
        tag < 0 || tag > 6,
    ensures
        spec_kind_of(tag) is None,
{
}

} // verus!
