//! The length-prefixed frames that carry gRPC messages.

use crate::buffer::{be_bytes, buffered, content, put_slice, put_u32, put_u8};
use crate::status::{Code, Status, StatusView};
use bytes::{Bytes, BytesMut};
use vstd::prelude::*;

verus! {

/// Length, in bytes, of a frame header: one compressed-flag byte followed by
/// four big-endian payload-length bytes.
pub const GRPC_FRAME_HEADER_LEN: usize = 5;

/// The payload length that a complete header declares.
pub open spec fn declared_len(header: Seq<u8>) -> nat
    recommends
        header.len() >= GRPC_FRAME_HEADER_LEN,
{
    (header[1] * 0x100_0000 + header[2] * 0x1_0000 + header[3] * 0x100 + header[4]) as nat
}

/// The frame header at the start of `bytes`: the compressed flag and the
/// payload length, once enough bytes are there.
pub open spec fn frame_header(bytes: Seq<u8>) -> Option<(u8, nat)> {
    if bytes.len() < GRPC_FRAME_HEADER_LEN {
        None
    } else {
        Some((bytes[0], declared_len(bytes)))
    }
}

/// One frame: the flag, the length of the payload and the payload.
pub open spec fn frame(flag: u8, payload: Seq<u8>) -> Seq<u8> {
    seq![flag] + be_bytes(payload.len() as u32) + payload
}

/// Messages, each a flag and a payload, framed one after another.
pub open spec fn stream(messages: Seq<(u8, Seq<u8>)>) -> Seq<u8>
    decreases messages.len(),
{
    if messages.len() == 0 {
        Seq::empty()
    } else {
        frame(messages[0].0, messages[0].1) + stream(messages.drop_first())
    }
}

/// Parses a frame header from the start of `bytes`, or returns `None` where
/// `bytes` is too short to contain one.
pub fn read_frame_header(bytes: &[u8]) -> (r: Option<(u8, usize)>)
    ensures
        r is Some == frame_header(bytes@) is Some,
        r matches Some(h) ==> frame_header(bytes@) == Some((h.0, h.1 as nat)),
        r matches Some(h) ==> h.1 <= u32::MAX,
{
    if bytes.len() < GRPC_FRAME_HEADER_LEN {
        return None;
    }
    let flag = bytes[0];
    let len: u32 = bytes[1] as u32 * 0x100_0000 + bytes[2] as u32 * 0x1_0000 + bytes[3] as u32
        * 0x100 + bytes[4] as u32;
    Some((flag, len as usize))
}

/// What serialising one frame gives.
pub open spec fn reframed(flag: u8, payload: Seq<u8>) -> Result<Seq<u8>, StatusView> {
    if payload.len() > u32::MAX {
        Err(
            StatusView::plain(
                Code::Internal,
                "transformed gRPC message exceeds u32 frame length"@,
            ),
        )
    } else {
        Ok(frame(flag, payload))
    }
}

/// Serialises one frame. A payload longer than the length prefix can tell is
/// rejected, so that the framing on the wire stays in step.
pub fn reframe(flag: u8, payload: &[u8]) -> (r: Result<Bytes, Status>)
    ensures
        match r {
            Ok(b) => reframed(flag, payload@) == Ok::<_, StatusView>(content(b)),
            Err(s) => reframed(flag, payload@) == Err::<Seq<u8>, _>(s@),
        },
{
    if payload.len() > u32::MAX as usize {
        return Err(
            Status::new(
                Code::Internal,
                "transformed gRPC message exceeds u32 frame length".to_string(),
            ),
        );
    }
    let len: u32 = payload.len() as u32;
    let mut out = BytesMut::new();
    put_u8(&mut out, flag);
    put_u32(&mut out, len);
    put_slice(&mut out, payload);
    assert(buffered(out) =~= frame(flag, payload@));
    Ok(out.freeze())
}

/// A frame is read back from the front of what it was written to: its header
/// declares its payload, which follows, and the next bytes come after it.
pub proof fn lemma_frame_reads_back(flag: u8, payload: Seq<u8>, rest: Seq<u8>)
    requires
        payload.len() <= u32::MAX,
    ensures
        frame_header(frame(flag, payload) + rest) == Some((flag, payload.len())),
        (frame(flag, payload) + rest).subrange(
            GRPC_FRAME_HEADER_LEN as int,
            GRPC_FRAME_HEADER_LEN + payload.len(),
        ) == payload,
        (frame(flag, payload) + rest).skip(GRPC_FRAME_HEADER_LEN + payload.len()) == rest,
{
    let s = frame(flag, payload) + rest;
    let n = payload.len() as u32;
    lemma_be_bytes(n);
    assert(s[0] == flag && s[1] == be_bytes(n)[0] && s[2] == be_bytes(n)[1] && s[3] == be_bytes(
        n,
    )[2] && s[4] == be_bytes(n)[3]);
    assert(s.subrange(GRPC_FRAME_HEADER_LEN as int, GRPC_FRAME_HEADER_LEN + payload.len())
        =~= payload);
    assert(s.skip(GRPC_FRAME_HEADER_LEN + payload.len()) =~= rest);
}

/// A frame on the wire is five bytes and the payload: the flag, the length of
/// the payload with its most significant byte first, and every byte of the
/// payload. Only a payload whose length does not fit is refused.
pub proof fn lemma_wire_layout(flag: u8, payload: &[u8], r: Result<Bytes, Status>)
    requires
        call_ensures(reframe, (flag, payload), r),
    ensures
        r is Ok <==> payload@.len() < 0x1_0000_0000,
        r matches Ok(b) ==> content(b).len() == 5 + payload@.len() && content(b)[0] == flag
            && content(b).skip(5) == payload@ && ((content(b)[1] * 256 + content(b)[2]) * 256
            + content(b)[3]) * 256 + content(b)[4] == payload@.len(),
        r matches Err(s) ==> s@.code == Code::Internal,
{
    if payload@.len() < 0x1_0000_0000 {
        lemma_be_bytes(payload@.len() as u32);
        assert(frame(flag, payload@).skip(5) =~= payload@);
    }
}

/// A header is read once five bytes are there: the first one is the flag, and
/// the next four are the length with its most significant byte first. What
/// follows makes no difference.
pub proof fn lemma_header_layout(bytes: &[u8], r: Option<(u8, usize)>)
    requires
        call_ensures(read_frame_header, (bytes,), r),
    ensures
        r is Some <==> bytes@.len() >= 5,
        r matches Some(h) ==> h.0 == bytes@[0] && h.1 == ((bytes@[1] * 256 + bytes@[2]) * 256
            + bytes@[3]) * 256 + bytes@[4],
{
}

/// What was framed is told by its header, whatever follows it.
pub proof fn lemma_framed_header_reads_back(
    flag: u8,
    payload: &[u8],
    framed: Bytes,
    bytes: &[u8],
    rest: Seq<u8>,
    r: Option<(u8, usize)>,
)
    requires
        call_ensures(reframe, (flag, payload), Ok::<Bytes, Status>(framed)),
        bytes@ == content(framed) + rest,
        call_ensures(read_frame_header, (bytes,), r),
    ensures
        r matches Some(h) && h.0 == flag && h.1 == payload@.len(),
{
    lemma_wire_layout(flag, payload, Ok(framed));
}

/// Messages are framed one after another, in their order and with nothing
/// between them.
pub proof fn lemma_stream_joins(a: Seq<(u8, Seq<u8>)>, b: Seq<(u8, Seq<u8>)>)
    ensures
        stream(a + b) == stream(a) + stream(b),
        stream(Seq::empty()) == Seq::<u8>::empty(),
        forall|flag: u8, payload: Seq<u8>| #[trigger]
            stream(seq![(flag, payload)]) == frame(flag, payload),
    decreases a.len(),
{
    assert forall|flag: u8, payload: Seq<u8>| #[trigger]
        stream(seq![(flag, payload)]) == frame(flag, payload) by {
        assert(seq![(flag, payload)].drop_first() =~= Seq::empty());
        assert(stream(seq![(flag, payload)].drop_first()) =~= Seq::empty());
        assert(frame(flag, payload) + Seq::empty() =~= frame(flag, payload));
    }
    if a.len() == 0 {
        assert(a + b =~= b);
        assert(stream(a) + stream(b) =~= stream(b));
    } else {
        lemma_stream_joins(a.drop_first(), b);
        assert((a + b).drop_first() =~= a.drop_first() + b);
        assert(stream(a + b) =~= stream(a) + stream(b));
    }
}

proof fn lemma_be_bytes(n: u32)
    ensures
        be_bytes(n)[0] * 0x100_0000 + be_bytes(n)[1] * 0x1_0000 + be_bytes(n)[2] * 0x100
            + be_bytes(n)[3] == n,
{
}

} // verus!
