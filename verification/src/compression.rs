//! Message compression on the wire: which messages are rewritten, and how.

use crate::body::BodyFrame;
use crate::buffer::{buffered, buffered_slice, content, content_slice};
use crate::codec::{
    decompress_error_to_status, decompress_status, window_ceiling, window_log, CompressionEncoding,
    DecompressError,
};
use crate::frame::{
    frame, frame_header, lemma_frame_reads_back, read_frame_header, reframe, reframed, stream,
    GRPC_FRAME_HEADER_LEN,
};
use crate::status::{Code, Status, StatusView};
use crate::text::{decimal, push_decimal};
use bytes::{Bytes, BytesMut};
use vstd::prelude::*;
use vstd::slice::slice_subrange;

verus! {

/// How many bytes a single message may expand to where nothing else was
/// configured. Equal to the default `max_recv_message_size`, so that
/// decompression does not amplify a request past the receive limit.
pub const DEFAULT_MAX_DECOMPRESSED_SIZE: usize = 4 * 1024 * 1024;

/// Which way messages are rewritten.
#[derive(Debug, Clone, Copy, PartialEq, Eq, Structural)]
pub enum Direction {
    /// Uncompressed messages are compressed.
    Compress,
    /// Compressed messages are decompressed.
    Decompress,
}

impl Direction {
    /// The flag of the messages that are rewritten. The others are passed on.
    pub open spec fn flag(self) -> u8 {
        match self {
            Direction::Compress => 0,
            Direction::Decompress => 1,
        }
    }

    /// The flag of the messages that are rewritten. The others are passed on.
    pub fn matching_flag(self) -> (r: u8)
        ensures
            r == self.flag(),
    {
        match self {
            Direction::Compress => 0,
            Direction::Decompress => 1,
        }
    }
}

/// What decides how the messages of a body are rewritten.
pub struct Rewrite {
    pub encoding: CompressionEncoding,
    pub direction: Direction,
    pub max: usize,
}

impl Rewrite {
    /// What becomes of one message: the frame that is sent on, or the status
    /// with which the body fails.
    pub open spec fn message(self, flag: u8, payload: Seq<u8>) -> Result<Seq<u8>, StatusView> {
        if flag != self.direction.flag() {
            reframed(flag, payload)
        } else {
            match self.direction {
                Direction::Compress => match self.encoding.compressed(payload) {
                    Ok(out) => reframed(1, out),
                    Err(text) => Err(
                        StatusView::plain(
                            Code::Internal,
                            "failed to compress gRPC message: "@ + text,
                        ),
                    ),
                },
                Direction::Decompress => match self.encoding.decompressed(payload, self.max) {
                    Ok(out) => reframed(0, out),
                    Err(e) => Err(decompress_status(e)),
                },
            }
        }
    }

    /// Whether a message is refused for its declared length alone: where it is
    /// to be decompressed and is longer than the cap by more than codec
    /// overhead explains.
    pub open spec fn refuses_len(self, len: nat) -> bool {
        self.direction is Decompress && len > self.max + (self.max / 64 + 64)
    }
}

/// The status for a message that is refused for its declared length.
pub open spec fn refused_len_status(len: nat, max: nat) -> StatusView {
    StatusView::plain(
        Code::ResourceExhausted,
        "compressed gRPC frame length "@ + decimal(len) + " exceeds max_decompressed_size of "@
            + decimal(max) + " bytes (with headroom)"@,
    )
}

/// The status for a body that ends inside a message.
pub open spec fn truncated_status() -> StatusView {
    StatusView::plain(
        Code::Internal,
        "truncated gRPC message: body ended mid-frame while (de)compressing"@,
    )
}

/// The status for a body whose trailers come inside a message.
pub open spec fn truncated_before_trailers_status() -> StatusView {
    StatusView::plain(
        Code::Internal,
        "truncated gRPC message before trailers while (de)compressing"@,
    )
}

/// What is to be done next with a body.
pub enum BodyAction {
    /// Send this frame on.
    Emit(Bytes),
    /// Fail with this status.
    Fail(Status),
    /// Read the next frame of the inner body.
    Pull,
    /// The body has ended.
    End,
}

/// What is to be done next with a body.
#[verifier::ext_equal]
pub enum Step {
    Emit(Seq<u8>),
    Fail(StatusView),
    Pull,
    End,
}

impl View for BodyAction {
    type V = Step;

    open spec fn view(&self) -> Step {
        match self {
            BodyAction::Emit(b) => Step::Emit(content(*b)),
            BodyAction::Fail(s) => Step::Fail(s@),
            BodyAction::Pull => Step::Pull,
            BodyAction::End => Step::End,
        }
    }
}

/// What is to be done next where `buf` holds what was read and not yet sent on,
/// and what `buf` is afterwards. `done` tells that nothing more will be read.
pub open spec fn step(rewrite: Rewrite, buf: Seq<u8>, done: bool) -> (Step, Seq<u8>) {
    let short = if !done {
        Step::Pull
    } else if buf.len() == 0 {
        Step::End
    } else {
        Step::Fail(truncated_status())
    };
    match frame_header(buf) {
        None => (short, buf),
        Some((flag, len)) => if rewrite.refuses_len(len) {
            (Step::Fail(refused_len_status(len, rewrite.max as nat)), buf)
        } else if buf.len() < GRPC_FRAME_HEADER_LEN + len {
            (short, buf)
        } else {
            let payload = buf.subrange(
                GRPC_FRAME_HEADER_LEN as int,
                GRPC_FRAME_HEADER_LEN + len,
            );
            let rest = buf.skip(GRPC_FRAME_HEADER_LEN + len);
            match rewrite.message(flag, payload) {
                Ok(out) => (Step::Emit(out), rest),
                Err(s) => (Step::Fail(s), rest),
            }
        },
    }
}

/// A body that rewrites the messages of an inner body one by one, as they
/// become complete.
pub struct CompressionBody<B> {
    /// The inner body.
    pub inner: B,
    /// The codec.
    pub encoding: CompressionEncoding,
    /// Which way messages are rewritten.
    pub direction: Direction,
    /// How many bytes a message may expand to.
    pub max_decompressed_size: usize,
    /// Bytes that were read and not yet sent on.
    pub buf: BytesMut,
    /// Whether the inner body has ended.
    pub inner_done: bool,
}

impl<B> CompressionBody<B> {
    /// What decides how messages are rewritten.
    pub open spec fn rewrite(self) -> Rewrite {
        Rewrite {
            encoding: self.encoding,
            direction: self.direction,
            max: self.max_decompressed_size,
        }
    }

    /// The same body but for what was read.
    pub open spec fn same_but_buf(self, other: Self) -> bool {
        &&& self.inner == other.inner
        &&& self.encoding == other.encoding
        &&& self.direction == other.direction
        &&& self.max_decompressed_size == other.max_decompressed_size
        &&& self.inner_done == other.inner_done
    }

    /// A body of which nothing was read yet.
    pub fn new(
        inner: B,
        encoding: CompressionEncoding,
        direction: Direction,
        max_decompressed_size: usize,
    ) -> (r: Self)
        ensures
            r.inner == inner,
            r.encoding == encoding,
            r.direction == direction,
            r.max_decompressed_size == max_decompressed_size,
            buffered(r.buf) == Seq::<u8>::empty(),
            !r.inner_done,
    {
        CompressionBody {
            inner,
            encoding,
            direction,
            max_decompressed_size,
            buf: BytesMut::new(),
            inner_done: false,
        }
    }

    /// Rewrites one message. A message whose flag does not match the direction
    /// is passed on; the others are compressed or decompressed, each under the
    /// full cap, and their flag is flipped.
    pub fn transform_one(&self, flag: u8, payload: &[u8]) -> (r: Result<Bytes, Status>)
        ensures
            match r {
                Ok(b) => self.rewrite().message(flag, payload@) == Ok::<_, StatusView>(content(b)),
                Err(s) => self.rewrite().message(flag, payload@) == Err::<Seq<u8>, _>(s@),
            },
            self.direction is Compress && flag == 0 ==> (r matches Ok(b) ==> content(b).len() >= 5
                && self.encoding.reads_back(content(b).skip(5), payload@)),
    {
        let matching: u8 = self.direction.matching_flag();
        if flag != matching {
            return reframe(flag, payload);
        }
        let transformed = match self.direction {
            Direction::Compress => match self.encoding.compress_bytes(payload) {
                Ok(out) => out,
                Err(text) => {
                    let mut message = String::new();
                    message.append("failed to compress gRPC message: ");
                    message.append(text.as_str());
                    assert(message@ =~= "failed to compress gRPC message: "@ + text@);
                    return Err(Status::new(Code::Internal, message));
                },
            },
            Direction::Decompress => match self.encoding.decompress_bytes(
                payload,
                self.max_decompressed_size,
            ) {
                Ok(out) => out,
                Err(e) => return Err(decompress_error_to_status(&e)),
            },
        };
        assert(frame(1, transformed@).skip(5) =~= transformed@);
        reframe(1 - matching, transformed.as_slice())
    }

    /// Decides what is to be done next, and takes a complete message out of
    /// what was read. A message that declares an abusive length is refused
    /// before its payload is collected.
    pub fn next_action(&mut self) -> (r: BodyAction)
        ensures
            final(self).same_but_buf(*old(self)),
            step(old(self).rewrite(), buffered(old(self).buf), old(self).inner_done) == (
                r@,
                buffered(final(self).buf),
            ),
    {
        if let Some((flag, len)) = read_frame_header(buffered_slice(&self.buf)) {
            let max = self.max_decompressed_size;
            if matches!(self.direction, Direction::Decompress) && len.saturating_sub(max) > max / 64
                + 64 {
                let mut message = String::new();
                message.append("compressed gRPC frame length ");
                push_decimal(&mut message, len);
                message.append(" exceeds max_decompressed_size of ");
                push_decimal(&mut message, max);
                message.append(" bytes (with headroom)");
                assert(message@ =~= refused_len_status(len as nat, max as nat).message);
                return BodyAction::Fail(Status::new(Code::ResourceExhausted, message));
            }
            if self.buf.len() - GRPC_FRAME_HEADER_LEN >= len {
                let ghost before = buffered(self.buf);
                let frame = self.buf.split_to(GRPC_FRAME_HEADER_LEN + len);
                let bytes = buffered_slice(&frame);
                let payload = slice_subrange(bytes, GRPC_FRAME_HEADER_LEN, bytes.len());
                assert(payload@ =~= before.subrange(
                    GRPC_FRAME_HEADER_LEN as int,
                    GRPC_FRAME_HEADER_LEN + len,
                ));
                return match self.transform_one(flag, payload) {
                    Ok(out) => BodyAction::Emit(out),
                    Err(status) => BodyAction::Fail(status),
                };
            }
        }
        if self.inner_done {
            if self.buf.is_empty() {
                return BodyAction::End;
            }
            return BodyAction::Fail(
                Status::new(
                    Code::Internal,
                    "truncated gRPC message: body ended mid-frame while (de)compressing".to_string(),
                ),
            );
        }
        BodyAction::Pull
    }

    /// Takes a frame of the inner body. Data is kept until a message is
    /// complete. Trailers are passed on untouched, unless they come inside a
    /// message.
    pub fn on_frame(&mut self, frame: BodyFrame) -> (r: Option<Result<BodyFrame, Status>>)
        ensures
            final(self).same_but_buf(*old(self)),
            buffered(final(self).buf) == buffered(old(self).buf) + frame.data(),
            match frame {
                BodyFrame::Data(_) => r is None,
                BodyFrame::Trailers(_) => if buffered(old(self).buf).len() == 0 {
                    r == Some(Ok::<BodyFrame, Status>(frame))
                } else {
                    r matches Some(Err(s)) && s@ == truncated_before_trailers_status()
                },
            },
    {
        if let BodyFrame::Data(data) = &frame {
            self.buf.extend_from_slice(content_slice(data));
            return None;
        }
        assert(buffered(self.buf) + frame.data() =~= buffered(self.buf));
        if !self.buf.is_empty() {
            return Some(
                Err(
                    Status::new(
                        Code::Internal,
                        "truncated gRPC message before trailers while (de)compressing".to_string(),
                    ),
                ),
            );
        }
        Some(Ok(frame))
    }

    /// Takes note that the inner body has ended.
    pub fn on_end(&mut self)
        ensures
            *final(self) == (CompressionBody { inner_done: true, ..*old(self) }),
    {
        self.inner_done = true;
    }

    /// Whether the body has ended.
    pub fn is_end_stream(&self) -> (r: bool)
        ensures
            r == (self.inner_done && buffered(self.buf).len() == 0),
    {
        self.inner_done && self.buf.is_empty()
    }
}

/// What is sent on of `buf` before more has to be read, frame by frame, and how
/// it ends: with what is left, or with a failure.
pub open spec fn drain(rewrite: Rewrite, buf: Seq<u8>) -> (
    Seq<Seq<u8>>,
    Result<Seq<u8>, StatusView>,
)
    decreases buf.len(),
{
    match step(rewrite, buf, false) {
        (Step::Emit(out), rest) => if rest.len() < buf.len() {
            let (later, end) = drain(rewrite, rest);
            (seq![out] + later, end)
        } else {
            (seq![out], Ok(rest))
        },
        (Step::Fail(status), _) => (Seq::empty(), Err(status)),
        (_, rest) => (Seq::empty(), Ok(rest)),
    }
}

/// How a body is cut into chunks makes no difference to what is sent on: what
/// a first chunk completes is sent on at once, and what it leaves over is
/// joined to the next.
pub proof fn lemma_drain_chunks(rewrite: Rewrite, a: Seq<u8>, b: Seq<u8>)
    ensures
        drain(rewrite, a + b) == match drain(rewrite, a) {
            (sent, Ok(left)) => (
                sent + drain(rewrite, left + b).0,
                drain(rewrite, left + b).1,
            ),
            (sent, Err(status)) => (sent, Err(status)),
        },
    decreases a.len(),
{
    if let Some((flag, len)) = frame_header(a) {
        assert(frame_header(a + b) == frame_header(a));
        if !rewrite.refuses_len(len) && a.len() >= GRPC_FRAME_HEADER_LEN + len {
            let total = GRPC_FRAME_HEADER_LEN + len;
            let rest = a.skip(total);
            assert((a + b).subrange(GRPC_FRAME_HEADER_LEN as int, total) =~= a.subrange(
                GRPC_FRAME_HEADER_LEN as int,
                total,
            ));
            assert((a + b).skip(total) =~= rest + b);
            if let (Step::Emit(out), _) = step(rewrite, a, false) {
                lemma_drain_chunks(rewrite, rest, b);
                let (later, end) = drain(rewrite, rest);
                if let Ok(left) = end {
                    assert(seq![out] + (later + drain(rewrite, left + b).0) =~= (seq![out] + later)
                        + drain(rewrite, left + b).0);
                }
            }
        } else if !rewrite.refuses_len(len) {
            assert(Seq::empty() + drain(rewrite, a + b).0 =~= drain(rewrite, a + b).0);
        }
    } else {
        assert(Seq::empty() + drain(rewrite, a + b).0 =~= drain(rewrite, a + b).0);
    }
}

/// What is sent on where chunks come one after another, `left` being left over
/// from before: each chunk is joined to what is left over and drained, until
/// one fails.
pub open spec fn feed(rewrite: Rewrite, left: Seq<u8>, chunks: Seq<Seq<u8>>) -> (
    Seq<Seq<u8>>,
    Result<Seq<u8>, StatusView>,
)
    decreases chunks.len(),
{
    if chunks.len() == 0 {
        (Seq::empty(), Ok(left))
    } else {
        match drain(rewrite, left + chunks[0]) {
            (sent, Ok(rest)) => {
                let (later, end) = feed(rewrite, rest, chunks.drop_first());
                (sent + later, end)
            },
            (sent, Err(status)) => (sent, Err(status)),
        }
    }
}

/// The frames that are sent on, and the failure if there is one, rest on the
/// bytes of a body alone and not on its chunks.
pub proof fn lemma_feed_ignores_chunks(rewrite: Rewrite, chunks: Seq<Seq<u8>>)
    ensures
        feed(rewrite, Seq::empty(), chunks) == drain(rewrite, chunks.flatten()),
{
    assert(drain(rewrite, Seq::empty()) == (
        Seq::<Seq<u8>>::empty(),
        Ok::<_, StatusView>(Seq::<u8>::empty()),
    ));
    lemma_feed(rewrite, Seq::empty(), chunks);
    assert(Seq::<u8>::empty() + chunks.flatten() =~= chunks.flatten());
}

proof fn lemma_feed(rewrite: Rewrite, left: Seq<u8>, chunks: Seq<Seq<u8>>)
    requires
        drain(rewrite, left) == (Seq::<Seq<u8>>::empty(), Ok::<_, StatusView>(left)),
    ensures
        feed(rewrite, left, chunks) == drain(rewrite, left + chunks.flatten()),
    decreases chunks.len(),
{
    if chunks.len() == 0 {
        assert(left + chunks.flatten() =~= left);
    } else {
        let first = left + chunks[0];
        let later = chunks.drop_first().flatten();
        assert(left + chunks.flatten() =~= first + later);
        lemma_drain_chunks(rewrite, first, later);
        lemma_drain_leaves_drained(rewrite, first);
        if let (_, Ok(rest)) = drain(rewrite, first) {
            lemma_feed(rewrite, rest, chunks.drop_first());
        }
    }
}

proof fn lemma_drain_leaves_drained(rewrite: Rewrite, buf: Seq<u8>)
    ensures
        drain(rewrite, buf).1 matches Ok(rest) ==> drain(rewrite, rest) == (
            Seq::<Seq<u8>>::empty(),
            Ok::<_, StatusView>(rest),
        ),
    decreases buf.len(),
{
    if let (Step::Emit(_), rest) = step(rewrite, buf, false) {
        lemma_drain_leaves_drained(rewrite, rest);
    }
}

/// A stream of messages that can each be rewritten is rewritten message by
/// message, and nothing is left over.
pub proof fn lemma_drain_stream(
    rewrite: Rewrite,
    messages: Seq<(u8, Seq<u8>)>,
    outs: Seq<Seq<u8>>,
)
    requires
        messages.len() == outs.len(),
        forall|i: int|
            0 <= i < messages.len() ==> (#[trigger] messages[i]).1.len() <= u32::MAX
                && !rewrite.refuses_len(messages[i].1.len()) && rewrite.message(
                messages[i].0,
                messages[i].1,
            ) == Ok::<_, StatusView>(outs[i]),
    ensures
        drain(rewrite, stream(messages)).0 == outs,
        drain(rewrite, stream(messages)).1 == Ok::<_, StatusView>(Seq::<u8>::empty()),
    decreases messages.len(),
{
    if messages.len() > 0 {
        let later = messages.drop_first();
        assert forall|i: int| 0 <= i < later.len() implies later[i] == messages[i + 1] by {}
        lemma_drain_stream(rewrite, later, outs.drop_first());
        lemma_frame_reads_back(messages[0].0, messages[0].1, stream(later));
        let buf = stream(messages);
        assert(buf.len() == GRPC_FRAME_HEADER_LEN + messages[0].1.len() + stream(later).len());
        assert(step(rewrite, buf, false) == (Step::Emit(outs[0]), stream(later)));
        assert(seq![outs[0]] + outs.drop_first() =~= outs);
    } else {
        assert(outs =~= Seq::empty());
    }
}

/// The payloads as messages with a flag.
pub open spec fn flagged(flag: u8, payloads: Seq<Seq<u8>>) -> Seq<(u8, Seq<u8>)> {
    payloads.map_values(|p: Seq<u8>| (flag, p))
}

/// The payloads as frames with a flag.
pub open spec fn framed(flag: u8, payloads: Seq<Seq<u8>>) -> Seq<Seq<u8>> {
    payloads.map_values(|p: Seq<u8>| frame(flag, p))
}

/// Whether a message survives being compressed and decompressed: it compresses
/// to `z`, both fit a frame and the receiver's cap, and `z` reads back.
pub open spec fn survives(
    encoding: CompressionEncoding,
    max: usize,
    payload: Seq<u8>,
    z: Seq<u8>,
) -> bool {
    &&& encoding.compressed(payload) == Ok::<_, Seq<char>>(z)
    &&& encoding.reads_back(z, payload)
    &&& payload.len() <= max
    &&& payload.len() <= u32::MAX
    &&& z.len() <= u32::MAX
    &&& z.len() <= max + (max / 64 + 64)
}

/// What one side compresses the other gives back: the frames that a stream of
/// messages is compressed to, joined, are decompressed to the frames that the
/// stream was made of. The cap of the compressing side plays no part.
pub proof fn lemma_wire_round_trip(
    encoding: CompressionEncoding,
    sender_max: usize,
    max: usize,
    payloads: Seq<Seq<u8>>,
    zs: Seq<Seq<u8>>,
)
    requires
        payloads.len() == zs.len(),
        forall|i: int|
            0 <= i < payloads.len() ==> survives(encoding, max, #[trigger] payloads[i], zs[i]),
    ensures
        drain(
            Rewrite { encoding, direction: Direction::Compress, max: sender_max },
            stream(flagged(0, payloads)),
        ) == (framed(1, zs), Ok::<_, StatusView>(Seq::<u8>::empty())),
        framed(1, zs).flatten() == stream(flagged(1, zs)),
        drain(
            Rewrite { encoding, direction: Direction::Decompress, max },
            stream(flagged(1, zs)),
        ) == (framed(0, payloads), Ok::<_, StatusView>(Seq::<u8>::empty())),
{
    let compress = Rewrite { encoding, direction: Direction::Compress, max: sender_max };
    let decompress = Rewrite { encoding, direction: Direction::Decompress, max };
    assert forall|i: int| 0 <= i < payloads.len() implies {
        &&& (#[trigger] flagged(0, payloads)[i]).1.len() <= u32::MAX
        &&& !compress.refuses_len(flagged(0, payloads)[i].1.len())
        &&& compress.message(flagged(0, payloads)[i].0, flagged(0, payloads)[i].1) == Ok::<
            _,
            StatusView,
        >(framed(1, zs)[i])
    } by {
        assert(survives(encoding, max, payloads[i], zs[i]));
    }
    lemma_drain_stream(compress, flagged(0, payloads), framed(1, zs));
    assert forall|i: int| 0 <= i < zs.len() implies {
        &&& (#[trigger] flagged(1, zs)[i]).1.len() <= u32::MAX
        &&& !decompress.refuses_len(flagged(1, zs)[i].1.len())
        &&& decompress.message(flagged(1, zs)[i].0, flagged(1, zs)[i].1) == Ok::<_, StatusView>(
            framed(0, payloads)[i],
        )
    } by {
        assert(survives(encoding, max, payloads[i], zs[i]));
        assert(encoding.decompressed(zs[i], max) is Ok);
    }
    lemma_drain_stream(decompress, flagged(1, zs), framed(0, payloads));
    lemma_framed_joins(1, zs);
}

/// A compressed message that would expand past the receiver's cap exhausts a
/// resource, whether it is refused for its own length or while it is
/// decompressed. For zstd the cap lets the message's window through; a smaller
/// cap rules out the window first.
pub proof fn lemma_oversized_message_exhausts(
    encoding: CompressionEncoding,
    max: usize,
    payload: Seq<u8>,
    z: Seq<u8>,
    rest: Seq<u8>,
    done: bool,
)
    requires
        encoding.reads_back(z, payload),
        !(encoding is Identity),
        payload.len() > max,
        z.len() <= u32::MAX,
        encoding is Zstd ==> window_log(payload.len()) <= window_ceiling(max as nat),
    ensures
        step(
            Rewrite { encoding, direction: Direction::Decompress, max },
            frame(1, z) + rest,
            done,
        ).0 matches Step::Fail(s) && s.code == Code::ResourceExhausted,
{
    lemma_frame_reads_back(1, z, rest);
    assert(encoding.decompressed(z, max) is Err);
}

proof fn lemma_framed_joins(flag: u8, payloads: Seq<Seq<u8>>)
    ensures
        framed(flag, payloads).flatten() == stream(flagged(flag, payloads)),
    decreases payloads.len(),
{
    if payloads.len() > 0 {
        lemma_framed_joins(flag, payloads.drop_first());
        assert(framed(flag, payloads).drop_first() =~= framed(flag, payloads.drop_first()));
        assert(flagged(flag, payloads).drop_first() =~= flagged(flag, payloads.drop_first()));
    }
}

/// A message whose flag is not the one that the direction rewrites leaves as the
/// very frame that it came in as: the same flag, the same length and every byte
/// of the payload. That is so for every codec and every cap.
pub proof fn lemma_other_message_unchanged<B>(
    body: CompressionBody<B>,
    flag: u8,
    payload: &[u8],
    r: Result<Bytes, Status>,
)
    requires
        call_ensures(CompressionBody::<B>::transform_one, (&body, flag, payload), r),
        body.direction is Compress ==> flag != 0,
        body.direction is Decompress ==> flag != 1,
        payload@.len() < 0x1_0000_0000,
    ensures
        r matches Ok(b) && content(b).len() == 5 + payload@.len() && content(b)[0] == flag
            && content(b).skip(5) == payload@ && ((content(b)[1] * 256 + content(b)[2]) * 256
            + content(b)[3]) * 256 + content(b)[4] == payload@.len(),
{
    lemma_frame_reads_back(flag, payload@, Seq::empty());
    assert(frame(flag, payload@) + Seq::empty() =~= frame(flag, payload@));
    assert(frame(flag, payload@).skip(5) =~= payload@);
}

/// A stream of messages that are not rewritten drains to itself: frame by frame,
/// every byte of it, and nothing is left over.
pub proof fn lemma_other_messages_drain_to_themselves(
    rewrite: Rewrite,
    messages: Seq<(u8, Seq<u8>)>,
)
    requires
        forall|i: int|
            0 <= i < messages.len() ==> {
                &&& (#[trigger] messages[i]).1.len() < 0x1_0000_0000
                &&& rewrite.direction is Compress ==> messages[i].0 != 0
                &&& rewrite.direction is Decompress ==> messages[i].0 != 1
                    && messages[i].1.len() <= rewrite.max + rewrite.max / 64 + 64
            },
    ensures
        drain(rewrite, stream(messages)).0.len() == messages.len(),
        drain(rewrite, stream(messages)).0.flatten() == stream(messages),
        drain(rewrite, stream(messages)).1 == Ok::<_, StatusView>(Seq::<u8>::empty()),
{
    let outs = messages.map_values(|m: (u8, Seq<u8>)| frame(m.0, m.1));
    lemma_drain_stream(rewrite, messages, outs);
    lemma_frames_join(messages);
}

proof fn lemma_frames_join(messages: Seq<(u8, Seq<u8>)>)
    ensures
        messages.map_values(|m: (u8, Seq<u8>)| frame(m.0, m.1)).flatten() == stream(messages),
    decreases messages.len(),
{
    let outs = messages.map_values(|m: (u8, Seq<u8>)| frame(m.0, m.1));
    if messages.len() > 0 {
        lemma_frames_join(messages.drop_first());
        assert(outs.drop_first() =~= messages.drop_first().map_values(
            |m: (u8, Seq<u8>)| frame(m.0, m.1),
        ));
    }
}

/// A message that was compressed leaves with its flag set, and is given back by
/// decompressing what it left as: with its flag cleared and every byte of it,
/// wherever it is within the receiver's cap.
pub proof fn lemma_message_round_trip<A, B>(
    sender: CompressionBody<A>,
    receiver: CompressionBody<B>,
    payload: &[u8],
    sent: Bytes,
    z: &[u8],
    r: Result<Bytes, Status>,
)
    requires
        sender.direction is Compress,
        receiver.direction is Decompress,
        sender.encoding == receiver.encoding,
        call_ensures(
            CompressionBody::<A>::transform_one,
            (&sender, 0u8, payload),
            Ok::<Bytes, Status>(sent),
        ),
        z@ == content(sent).skip(5),
        call_ensures(CompressionBody::<B>::transform_one, (&receiver, 1u8, z), r),
        payload@.len() <= receiver.max_decompressed_size || receiver.encoding is Identity,
        payload@.len() < 0x1_0000_0000,
    ensures
        content(sent)[0] == 1,
        r matches Ok(b) && content(b).len() == 5 + payload@.len() && content(b)[0] == 0
            && content(b).skip(5) == payload@,
{
    let max = receiver.max_decompressed_size;
    assert(receiver.encoding.reads_back(z@, payload@));
    assert(receiver.encoding.decompressed(z@, max) is Ok);
    assert(frame(0, payload@).skip(5) =~= payload@);
}

/// A message that is rewritten changes its flag, and a message that was
/// decompressed is within the cap. What cannot be rewritten fails with a status
/// that tells of an exhausted resource or of an internal error.
pub proof fn lemma_rewritten_message<B>(
    body: CompressionBody<B>,
    flag: u8,
    payload: &[u8],
    r: Result<Bytes, Status>,
)
    requires
        call_ensures(CompressionBody::<B>::transform_one, (&body, flag, payload), r),
        body.direction is Compress ==> flag == 0,
        body.direction is Decompress ==> flag == 1,
    ensures
        r matches Ok(b) ==> content(b).len() >= 5 && content(b)[0] == 1 - flag,
        r matches Ok(b) ==> body.direction is Decompress && !(body.encoding is Identity)
            ==> content(b).len() <= 5 + body.max_decompressed_size,
        r matches Err(s) ==> s@.code == Code::Internal || s@.code == Code::ResourceExhausted,
        r matches Err(s) ==> body.direction is Compress ==> s@.code == Code::Internal,
{
}

/// Where what was read starts with a message, that message is taken out and
/// nothing else: the rest stays, and what is sent on is what the message is
/// rewritten to.
pub proof fn lemma_first_message_is_taken<B>(
    body: &mut CompressionBody<B>,
    flag: u8,
    payload: &[u8],
    rest: Seq<u8>,
    one: Result<Bytes, Status>,
    r: BodyAction,
)
    requires
        payload@.len() < 0x1_0000_0000,
        body.direction is Compress || payload@.len() <= body.max_decompressed_size
            + body.max_decompressed_size / 64 + 64,
        buffered(body.buf) == frame(flag, payload@) + rest,
        call_ensures(CompressionBody::<B>::transform_one, (body, flag, payload), one),
        call_ensures(CompressionBody::<B>::next_action, (body,), r),
    ensures
        buffered(final(body).buf) == rest,
        one matches Ok(b) ==> (r matches BodyAction::Emit(out) && content(out) == content(b)),
        one matches Err(s) ==> (r matches BodyAction::Fail(t) && t@ == s@),
{
    lemma_frame_reads_back(flag, payload@, rest);
}

/// While no message is complete, more is read and what was read stays. Once
/// nothing more comes, an empty buffer is the end, and anything else is a
/// message that was cut off.
pub proof fn lemma_incomplete_message_waits<B>(body: &mut CompressionBody<B>, r: BodyAction)
    requires
        ({
            let buf = buffered(body.buf);
            let len = ((buf[1] * 256 + buf[2]) * 256 + buf[3]) * 256 + buf[4];
            let max = body.max_decompressed_size as int;
            buf.len() < 5 || buf.len() < 5 + len && (body.direction is Compress || len <= max + max
                / 64 + 64)
        }),
        call_ensures(CompressionBody::<B>::next_action, (body,), r),
    ensures
        buffered(final(body).buf) == buffered(old(body).buf),
        !old(body).inner_done ==> r is Pull,
        old(body).inner_done && buffered(old(body).buf).len() == 0 ==> r is End,
        old(body).inner_done && buffered(old(body).buf).len() > 0 ==> (r matches BodyAction::Fail(s)
            && s@.code == Code::Internal),
{
}

/// A message that declares a length past the cap and its headroom is refused as
/// soon as its header is there, whatever else was read.
pub proof fn lemma_abusive_length_is_refused<B>(body: &mut CompressionBody<B>, r: BodyAction)
    requires
        body.direction is Decompress,
        ({
            let buf = buffered(body.buf);
            let len = ((buf[1] * 256 + buf[2]) * 256 + buf[3]) * 256 + buf[4];
            let max = body.max_decompressed_size as int;
            buf.len() >= 5 && len > max + max / 64 + 64
        }),
        call_ensures(CompressionBody::<B>::next_action, (body,), r),
    ensures
        r matches BodyAction::Fail(s) && s@.code == Code::ResourceExhausted,
{
}

/// Data is kept behind what was read before, and is not sent on by itself.
/// Trailers are passed on as they are where no message is under way, and are an
/// error where one is.
pub proof fn lemma_frames_of_a_body<B>(
    body: &mut CompressionBody<B>,
    frame: BodyFrame,
    r: Option<Result<BodyFrame, Status>>,
)
    requires
        call_ensures(CompressionBody::<B>::on_frame, (body, frame), r),
    ensures
        frame matches BodyFrame::Data(d) ==> r is None && buffered(final(body).buf) == buffered(
            old(body).buf,
        ) + content(d),
        frame is Trailers ==> buffered(final(body).buf) == buffered(old(body).buf),
        frame is Trailers && buffered(old(body).buf).len() == 0 ==> r == Some(
            Ok::<BodyFrame, Status>(frame),
        ),
        frame is Trailers && buffered(old(body).buf).len() > 0 ==> (r matches Some(Err(s))
            && s@.code == Code::Internal),
{
}

/// While a body is decompressed, more is read only while what was collected is
/// within the cap and its headroom, whatever length a message declares.
pub proof fn lemma_collects_within_cap(rewrite: Rewrite, buf: Seq<u8>, done: bool)
    requires
        rewrite.direction is Decompress,
        step(rewrite, buf, done).0 is Pull,
    ensures
        buf.len() < GRPC_FRAME_HEADER_LEN + rewrite.max + (rewrite.max / 64 + 64),
{
}

/// A message that is rewritten carries just what the codec makes of its payload,
/// and where the codec fails, the body fails with what the codec told.
pub proof fn lemma_codec_rewrites<B>(
    body: CompressionBody<B>,
    payload: &[u8],
    compressed: Result<Vec<u8>, String>,
    decompressed: Result<Vec<u8>, DecompressError>,
    told: Status,
    r: Result<Bytes, Status>,
)
    requires
        call_ensures(
            CompressionEncoding::compress_bytes,
            (body.encoding, payload),
            compressed,
        ),
        call_ensures(
            CompressionEncoding::decompress_bytes,
            (body.encoding, payload, body.max_decompressed_size),
            decompressed,
        ),
        decompressed matches Err(e) ==> call_ensures(decompress_error_to_status, (&e,), told),
        call_ensures(
            CompressionBody::<B>::transform_one,
            (
                &body,
                if body.direction is Compress {
                    0u8
                } else {
                    1u8
                },
                payload,
            ),
            r,
        ),
    ensures
        body.direction is Compress ==> match compressed {
            Ok(z) => z@.len() < 0x1_0000_0000 ==> (r matches Ok(b) && content(b)[0] == 1
                && content(b).skip(5) == z@),
            Err(text) => r matches Err(s) && s@.code == Code::Internal && s@.message
                == "failed to compress gRPC message: "@ + text@,
        },
        body.direction is Decompress ==> match decompressed {
            Ok(out) => out@.len() < 0x1_0000_0000 ==> (r matches Ok(b) && content(b)[0] == 0
                && content(b).skip(5) == out@),
            Err(_) => r matches Err(s) && s@ == told@,
        },
{
    if let Ok(z) = compressed {
        assert(frame(1, z@).skip(5) =~= z@);
    }
    if let Ok(out) = decompressed {
        assert(frame(0, out@).skip(5) =~= out@);
    }
}

/// A body starts with nothing read and not ended, and has ended once its inner
/// body has and nothing is left over. That the inner body ended changes nothing
/// else.
pub proof fn lemma_body_starts_and_ends<B>(
    inner: B,
    encoding: CompressionEncoding,
    direction: Direction,
    max: usize,
    fresh: CompressionBody<B>,
    body: &mut CompressionBody<B>,
    ended: bool,
)
    requires
        call_ensures(CompressionBody::<B>::new, (inner, encoding, direction, max), fresh),
        call_ensures(CompressionBody::<B>::is_end_stream, (body,), ended),
        call_ensures(CompressionBody::<B>::on_end, (body,), ()),
    ensures
        fresh.inner == inner && fresh.encoding == encoding && fresh.direction == direction
            && fresh.max_decompressed_size == max && !fresh.inner_done && buffered(
            fresh.buf,
        ).len() == 0,
        ended <==> old(body).inner_done && buffered(old(body).buf).len() == 0,
        final(body).inner_done,
        final(body).inner == old(body).inner && final(body).encoding == old(body).encoding && final(body).direction == old(body).direction && final(body).max_decompressed_size == old(body).max_decompressed_size && final(body).buf == old(body).buf,
{
}

/// Taking a message out of what was read changes nothing but what was read.
pub proof fn lemma_steps_keep_settings<B>(
    body: &mut CompressionBody<B>,
    r: BodyAction,
)
    requires
        call_ensures(CompressionBody::<B>::next_action, (body,), r),
    ensures
        final(body).inner == old(body).inner,
        final(body).encoding == old(body).encoding,
        final(body).direction == old(body).direction,
        final(body).max_decompressed_size == old(body).max_decompressed_size,
        final(body).inner_done == old(body).inner_done,
{
}

} // verus!
