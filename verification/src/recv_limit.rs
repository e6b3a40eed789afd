//! Enforcement of `max_recv_message_size` on every message of a request body.

use crate::body::{data_of, lemma_data_of_push, lemma_data_of_split, BodyFrame};
use crate::buffer::{buffered, buffered_slice, content_slice};
use crate::frame::{
    declared_len, frame, lemma_frame_reads_back, read_frame_header, stream, GRPC_FRAME_HEADER_LEN,
};
use crate::status::{Code, Status, StatusView};
use crate::text::{
    decimal, lemma_numeral_stands_for_its_number, push_decimal, value_of,
};
use bytes::BytesMut;
use std::collections::VecDeque;
use vstd::prelude::*;
use vstd::slice::slice_subrange;

verus! {

/// Where in the sequence of frames a scan stands.
pub enum FrameScanState {
    /// Inside a frame header, of which these bytes have been seen. The header
    /// may be split over any number of chunks.
    Header(BytesMut),
    /// Inside a payload whose declared length is within the limit, with this
    /// many bytes still to come.
    Payload(usize),
}

/// Where in the sequence of frames a scan stands.
#[verifier::ext_equal]
pub enum ScanView {
    Header(Seq<u8>),
    Payload(nat),
}

impl View for FrameScanState {
    type V = ScanView;

    open spec fn view(&self) -> ScanView {
        match self {
            FrameScanState::Header(b) => ScanView::Header(buffered(*b)),
            FrameScanState::Payload(n) => ScanView::Payload(*n as nat),
        }
    }
}

impl ScanView {
    /// The start of a frame.
    pub open spec fn start() -> ScanView {
        ScanView::Header(Seq::empty())
    }

    /// No more header bytes are held than a header has.
    pub open spec fn wf(self) -> bool {
        self matches ScanView::Header(h) ==> h.len() <= GRPC_FRAME_HEADER_LEN
    }

    /// The state in which the next byte is read: past an empty payload and
    /// past a header that is complete. `None` where that header declares more
    /// than `max` bytes.
    pub open spec fn at_byte(self, max: nat) -> Option<ScanView> {
        match self {
            ScanView::Payload(n) => Some(
                if n == 0 {
                    ScanView::start()
                } else {
                    self
                },
            ),
            ScanView::Header(h) => if h.len() < GRPC_FRAME_HEADER_LEN {
                Some(self)
            } else if declared_len(h) > max {
                None
            } else if declared_len(h) == 0 {
                Some(ScanView::start())
            } else {
                Some(ScanView::Payload(declared_len(h)))
            },
        }
    }
}

/// What one byte does to a scan: the next state, or, where a header now
/// declares more than `max` bytes, the state in which the scan stops.
pub open spec fn scan_byte(s: ScanView, b: u8, max: nat) -> Result<ScanView, ScanView> {
    match s.at_byte(max) {
        None => Err(s),
        Some(ScanView::Payload(n)) => Ok(
            if n == 1 {
                ScanView::start()
            } else {
                ScanView::Payload((n - 1) as nat)
            },
        ),
        Some(ScanView::Header(h)) => {
            let header = h.push(b);
            if header.len() < GRPC_FRAME_HEADER_LEN {
                Ok(ScanView::Header(header))
            } else if declared_len(header) > max {
                Err(ScanView::Header(header))
            } else {
                Ok(ScanView::Payload(declared_len(header)))
            }
        },
    }
}

/// What a chunk of bytes does to a scan, byte by byte, up to the first header
/// that declares more than `max` bytes.
pub open spec fn scan(s: ScanView, data: Seq<u8>, max: nat) -> Result<ScanView, ScanView>
    decreases data.len(),
{
    if data.len() == 0 {
        Ok(s)
    } else {
        match scan_byte(s, data[0], max) {
            Err(t) => Err(t),
            Ok(t) => scan(t, data.drop_first(), max),
        }
    }
}

/// The status with which an oversized message is refused.
pub open spec fn oversized_status(max: nat) -> StatusView {
    StatusView::plain(
        Code::ResourceExhausted,
        "request exceeds configured max_recv_message_size of "@ + decimal(max) + " bytes"@,
    )
}

fn oversized(max: usize) -> (r: Status)
    ensures
        r@ == oversized_status(max as nat),
{
    let mut message = String::new();
    message.append("request exceeds configured max_recv_message_size of ");
    push_decimal(&mut message, max);
    message.append(" bytes");
    assert(message@ =~= oversized_status(max as nat).message);
    Status::new(Code::ResourceExhausted, message)
}

impl FrameScanState {
    /// The start of a frame.
    pub fn start() -> (r: FrameScanState)
        ensures
            r@ == ScanView::start(),
    {
        FrameScanState::Header(BytesMut::with_capacity(GRPC_FRAME_HEADER_LEN))
    }
}

impl Default for FrameScanState {
    fn default() -> (r: FrameScanState)
        ensures
            r@ == ScanView::start(),
    {
        FrameScanState::start()
    }
}

/// Scans `data`, a chunk of framed bytes of any length and alignment, and
/// checks every frame header that it crosses against `max_recv_message_size`.
/// `state` carries the position from one chunk to the next.
pub fn scan_for_oversized_messages(
    data: &[u8],
    state: &mut FrameScanState,
    max_recv_message_size: usize,
) -> (r: Result<(), Status>)
    requires
        old(state)@.wf(),
    ensures
        final(state)@.wf(),
        match scan(old(state)@, data@, max_recv_message_size as nat) {
            Ok(t) => r is Ok && final(state)@ == t,
            Err(t) => r matches Err(s) && s@ == oversized_status(max_recv_message_size as nat)
                && final(state)@ == t,
        },
{
    let ghost max = max_recv_message_size as nat;
    let mut pos: usize = 0;
    assert(data@.skip(0) =~= data@);
    while pos < data.len()
        invariant
            pos <= data@.len(),
            max == max_recv_message_size,
            state@.wf(),
            scan(old(state)@, data@, max) == scan(state@, data@.skip(pos as int), max),
        decreases data@.len() - pos, scan_rank(state@),
    {
        let ghost before = state@;
        let ghost rest = data@.skip(pos as int);
        match state {
            FrameScanState::Header(buf) => {
                let need: usize = GRPC_FRAME_HEADER_LEN - buf.len();
                let take: usize = if need < data.len() - pos {
                    need
                } else {
                    data.len() - pos
                };
                buf.extend_from_slice(slice_subrange(data, pos, pos + take));
                proof {
                    let h = before->Header_0;
                    assert(data@.subrange(pos as int, pos + take) =~= rest.take(take as int));
                    assert(rest.skip(take as int) =~= data@.skip(pos + take));
                    assert(rest =~= rest.take(take as int) + rest.skip(take as int));
                    if h.len() + take < GRPC_FRAME_HEADER_LEN {
                        lemma_scan_short_header(h, rest.take(take as int), max);
                        lemma_scan_split(
                            before,
                            rest.take(take as int),
                            rest.skip(take as int),
                            max,
                        );
                    } else if take > 0 {
                        lemma_scan_full_header(h, rest.take(take as int), max);
                        lemma_scan_split(
                            before,
                            rest.take(take as int),
                            rest.skip(take as int),
                            max,
                        );
                    } else {
                        assert(rest.take(0) =~= Seq::empty());
                        assert(h + rest.take(0) =~= h);
                        lemma_scan_held_header(h, rest, max);
                        assert(rest.skip(0) =~= rest);
                    }
                }
                pos = pos + take;
                if buf.len() == GRPC_FRAME_HEADER_LEN {
                    if let Some((_, len)) = read_frame_header(buffered_slice(buf)) {
                        if len > max_recv_message_size {
                            return Err(oversized(max_recv_message_size));
                        }
                        *state = FrameScanState::Payload(len);
                    }
                }
            },
            FrameScanState::Payload(remaining) => {
                let take: usize = if *remaining < data.len() - pos {
                    *remaining
                } else {
                    data.len() - pos
                };
                proof {
                    let n = before->Payload_0;
                    assert(rest.skip(take as int) =~= data@.skip(pos + take));
                    assert(rest =~= rest.take(take as int) + rest.skip(take as int));
                    if n == 0 {
                        assert(rest.skip(0) =~= rest);
                        assert(scan(ScanView::Payload(0), rest, max) == scan(
                            ScanView::start(),
                            rest,
                            max,
                        ));
                    } else {
                        lemma_scan_payload(n, rest.take(take as int), max);
                        lemma_scan_split(
                            before,
                            rest.take(take as int),
                            rest.skip(take as int),
                            max,
                        );
                    }
                }
                pos = pos + take;
                *remaining = *remaining - take;
                if *remaining == 0 {
                    *state = FrameScanState::start();
                }
            },
        }
    }
    assert(data@.skip(pos as int) =~= Seq::empty());
    Ok(())
}

spec fn scan_rank(s: ScanView) -> nat {
    match s {
        ScanView::Header(h) => if h.len() >= GRPC_FRAME_HEADER_LEN {
            2
        } else {
            0
        },
        ScanView::Payload(n) => if n == 0 {
            1
        } else {
            0
        },
    }
}

/// How a body is cut into chunks makes no difference: scanning one chunk after
/// another is scanning them joined.
pub proof fn lemma_scan_split(s: ScanView, a: Seq<u8>, b: Seq<u8>, max: nat)
    ensures
        scan(s, a + b, max) == match scan(s, a, max) {
            Ok(t) => scan(t, b, max),
            Err(t) => Err(t),
        },
    decreases a.len(),
{
    if a.len() == 0 {
        assert(a + b =~= b);
    } else {
        assert((a + b).drop_first() =~= a.drop_first() + b);
        match scan_byte(s, a[0], max) {
            Ok(t) => lemma_scan_split(t, a.drop_first(), b, max),
            Err(_) => {},
        }
    }
}

proof fn lemma_scan_short_header(h: Seq<u8>, d: Seq<u8>, max: nat)
    requires
        h.len() + d.len() < GRPC_FRAME_HEADER_LEN,
    ensures
        scan(ScanView::Header(h), d, max) == Ok::<ScanView, ScanView>(ScanView::Header(h + d)),
    decreases d.len(),
{
    if d.len() == 0 {
        assert(h + d =~= h);
    } else {
        lemma_scan_short_header(h.push(d[0]), d.drop_first(), max);
        assert(h.push(d[0]) + d.drop_first() =~= h + d);
    }
}

proof fn lemma_scan_full_header(h: Seq<u8>, d: Seq<u8>, max: nat)
    requires
        d.len() > 0,
        h.len() + d.len() == GRPC_FRAME_HEADER_LEN,
    ensures
        scan(ScanView::Header(h), d, max) == if declared_len(h + d) > max {
            Err::<ScanView, ScanView>(ScanView::Header(h + d))
        } else {
            Ok(ScanView::Payload(declared_len(h + d)))
        },
{
    let init = d.drop_last();
    let tail = seq![d.last()];
    assert(d =~= init + tail);
    lemma_scan_short_header(h, init, max);
    lemma_scan_split(ScanView::Header(h), init, tail, max);
    assert((h + init).push(d.last()) =~= h + d);
    assert(tail.drop_first() =~= Seq::empty());
    reveal_with_fuel(scan, 2);
}

proof fn lemma_scan_held_header(h: Seq<u8>, d: Seq<u8>, max: nat)
    requires
        d.len() > 0,
        h.len() == GRPC_FRAME_HEADER_LEN,
    ensures
        scan(ScanView::Header(h), d, max) == if declared_len(h) > max {
            Err::<ScanView, ScanView>(ScanView::Header(h))
        } else {
            scan(ScanView::Payload(declared_len(h)), d, max)
        },
{
}

proof fn lemma_scan_payload(n: nat, d: Seq<u8>, max: nat)
    requires
        0 < n,
        d.len() <= n,
    ensures
        scan(ScanView::Payload(n), d, max) == Ok::<ScanView, ScanView>(
            if d.len() == n {
                ScanView::start()
            } else {
                ScanView::Payload((n - d.len()) as nat)
            },
        ),
    decreases d.len(),
{
    if d.len() == 0 {
    } else if n == 1 {
        assert(d.drop_first() =~= Seq::empty());
        reveal_with_fuel(scan, 2);
    } else {
        lemma_scan_payload((n - 1) as nat, d.drop_first(), max);
    }
}

/// The leading frames of a request body, read until the first frame header is
/// complete or the body ends.
pub struct Prefetch {
    frames: VecDeque<BodyFrame>,
    prefix_len: usize,
}

impl View for Prefetch {
    type V = Seq<BodyFrame>;

    closed spec fn view(&self) -> Seq<BodyFrame> {
        self.frames@
    }
}

impl Prefetch {
    /// The data bytes are counted.
    #[verifier::type_invariant]
    spec fn inv(&self) -> bool {
        self.prefix_len == data_of(self.frames@).len()
    }

    /// Nothing read yet.
    pub fn new() -> (r: Prefetch)
        ensures
            r@ == Seq::<BodyFrame>::empty(),
    {
        Prefetch { frames: VecDeque::new(), prefix_len: 0 }
    }

    /// Whether another frame is to be read before anything can be decided.
    pub fn wants_more(&self) -> (r: bool)
        ensures
            r == (data_of(self@).len() < GRPC_FRAME_HEADER_LEN),
    {
        proof {
            use_type_invariant(self);
        }
        self.prefix_len < GRPC_FRAME_HEADER_LEN
    }

    /// Keeps the next frame of the body.
    pub fn push(self, frame: BodyFrame) -> (r: Prefetch)
        requires
            data_of(self@).len() < GRPC_FRAME_HEADER_LEN,
        ensures
            r@ == self@.push(frame),
    {
        proof {
            use_type_invariant(&self);
            lemma_data_of_push(self@, frame);
        }
        let Prefetch { mut frames, mut prefix_len } = self;
        if let BodyFrame::Data(data) = &frame {
            prefix_len = prefix_len + data.len();
        }
        frames.push_back(frame);
        Prefetch { frames, prefix_len }
    }

    /// Scans the frames that were read, and makes of them and of the `rest` of
    /// the body one that replays them first.
    pub fn finish<B>(self, rest: B, max_recv_message_size: usize) -> (r: Result<
        PrefetchedBody<B>,
        Status,
    >)
        ensures
            match scan(ScanView::start(), data_of(self@), max_recv_message_size as nat) {
                Ok(t) => r matches Ok(body) && body.wf() && body.buffered@ == self@ && body.rest
                    == rest && body.max_recv_message_size == max_recv_message_size
                    && body.scan_state@ == t,
                Err(_) => r matches Err(s) && s@ == oversized_status(max_recv_message_size as nat),
            },
    {
        proof {
            use_type_invariant(&self);
        }
        let ghost max = max_recv_message_size as nat;
        let Prefetch { frames, prefix_len: _ } = self;
        let mut scan_state = FrameScanState::start();
        let mut i: usize = 0;
        while i < frames.len()
            invariant
                i <= frames@.len(),
                frames@ == self@,
                max == max_recv_message_size,
                scan_state@.wf(),
                scan(ScanView::start(), data_of(frames@.take(i as int)), max) == Ok::<
                    ScanView,
                    ScanView,
                >(scan_state@),
            decreases frames@.len() - i,
        {
            let ghost done = frames@.take(i as int);
            proof {
                assert(frames@.take(i + 1) =~= done.push(frames@[i as int]));
                lemma_data_of_push(done, frames@[i as int]);
                lemma_scan_split(
                    ScanView::start(),
                    data_of(done),
                    frames@[i as int].data(),
                    max,
                );
                lemma_data_of_split(frames@, i + 1);
                lemma_scan_split(
                    ScanView::start(),
                    data_of(frames@.take(i + 1)),
                    data_of(frames@.skip(i + 1)),
                    max,
                );
            }
            if let BodyFrame::Data(data) = &frames[i] {
                if let Err(status) = scan_for_oversized_messages(
                    content_slice(data),
                    &mut scan_state,
                    max_recv_message_size,
                ) {
                    return Err(status);
                }
            }
            i = i + 1;
        }
        assert(frames@.take(i as int) =~= frames@);
        Ok(PrefetchedBody { buffered: frames, rest, max_recv_message_size, scan_state })
    }
}

/// The status with which a request is answered whose body could not be read
/// far enough.
pub open spec fn read_error_status(error: Seq<char>) -> StatusView {
    StatusView::plain(
        Code::Internal,
        "failed to read request body while enforcing max_recv_message_size: "@ + error,
    )
}

/// The answer to a request whose body failed with `error` while its leading
/// frames were read: the failure is told, and not taken for the body's end.
pub fn read_error(error: &str) -> (r: Status)
    ensures
        r@ == read_error_status(error@),
{
    let mut message = String::new();
    message.append("failed to read request body while enforcing max_recv_message_size: ");
    message.append(error);
    assert(message@ =~= read_error_status(error@).message);
    Status::new(Code::Internal, message)
}

/// A body that first replays frames which were already read, and then goes on
/// with the rest, scanning every later frame for oversized messages.
pub struct PrefetchedBody<B> {
    /// Frames that were read and are to be replayed.
    pub buffered: VecDeque<BodyFrame>,
    /// The rest of the body.
    pub rest: B,
    /// The largest message that is let through.
    pub max_recv_message_size: usize,
    /// Where the scan stands, past every frame in `buffered`.
    pub scan_state: FrameScanState,
}

impl<B> PrefetchedBody<B> {
    /// The scan state is well formed, and the data waiting to be replayed can
    /// be counted.
    pub open spec fn wf(self) -> bool {
        &&& self.scan_state@.wf()
        &&& data_of(self.buffered@).len() <= u64::MAX
    }

    /// Takes the next frame to be replayed. Once there is none, frames come
    /// from `rest`, each through `on_rest`.
    pub fn next_buffered(&mut self) -> (r: Option<BodyFrame>)
        requires
            old(self).wf(),
        ensures
            final(self).wf(),
            r == (if old(self).buffered@.len() == 0 {
                None
            } else {
                Some(old(self).buffered@[0])
            }),
            final(self).buffered@ == (if old(self).buffered@.len() == 0 {
                old(self).buffered@
            } else {
                old(self).buffered@.skip(1)
            }),
            final(self).rest == old(self).rest,
            final(self).max_recv_message_size == old(self).max_recv_message_size,
            final(self).scan_state == old(self).scan_state,
    {
        proof {
            if self.buffered@.len() > 0 {
                lemma_data_of_split(self.buffered@, 1);
                assert(self.buffered@.skip(1) =~= self.buffered@.drop_first());
            }
        }
        self.buffered.pop_front()
    }

    /// What becomes of a frame that `rest` gave: it is passed on, unless a
    /// message in it is declared oversized.
    pub fn on_rest(&mut self, frame: BodyFrame) -> (r: Result<BodyFrame, Status>)
        requires
            old(self).wf(),
        ensures
            final(self).wf(),
            final(self).buffered == old(self).buffered,
            final(self).rest == old(self).rest,
            final(self).max_recv_message_size == old(self).max_recv_message_size,
            match scan(
                old(self).scan_state@,
                frame.data(),
                old(self).max_recv_message_size as nat,
            ) {
                Ok(t) => r == Ok::<BodyFrame, Status>(frame) && final(self).scan_state@ == t,
                Err(t) => r matches Err(s) && s@ == oversized_status(
                    old(self).max_recv_message_size as nat,
                ) && final(self).scan_state@ == t,
            },
    {
        if let BodyFrame::Data(data) = &frame {
            if let Err(status) = scan_for_oversized_messages(
                content_slice(data),
                &mut self.scan_state,
                self.max_recv_message_size,
            ) {
                return Err(status);
            }
        }
        Ok(frame)
    }

    /// Whether the body has ended, given whether the rest of it has.
    pub fn is_end_stream(&self, rest_ended: bool) -> (r: bool)
        ensures
            r == (self.buffered@.len() == 0 && rest_ended),
    {
        self.buffered.len() == 0 && rest_ended
    }

    /// Bounds on the data still to come, given those of the rest: what waits to
    /// be replayed is counted on top.
    pub fn size_hint(&self, lower: u64, upper: Option<u64>) -> (r: (u64, Option<u64>))
        requires
            self.wf(),
        ensures
            r.0 == saturated(lower + data_of(self.buffered@).len()),
            r.1 is Some == upper is Some,
            upper matches Some(u) ==> r.1 == Some(
                saturated(u + data_of(self.buffered@).len()) as u64,
            ),
    {
        let mut waiting: u64 = 0;
        let mut i: usize = 0;
        while i < self.buffered.len()
            invariant
                i <= self.buffered@.len(),
                self.wf(),
                waiting == data_of(self.buffered@.take(i as int)).len(),
            decreases self.buffered@.len() - i,
        {
            proof {
                let done = self.buffered@.take(i as int);
                assert(self.buffered@.take(i + 1) =~= done.push(self.buffered@[i as int]));
                lemma_data_of_push(done, self.buffered@[i as int]);
                lemma_data_of_split(self.buffered@, i + 1);
            }
            if let BodyFrame::Data(data) = &self.buffered[i] {
                waiting = waiting + data.len() as u64;
            }
            i = i + 1;
        }
        assert(self.buffered@.take(i as int) =~= self.buffered@);
        let upper = match upper {
            Some(u) => Some(u.saturating_add(waiting)),
            None => None,
        };
        (lower.saturating_add(waiting), upper)
    }
}

/// The number, or the largest 64-bit one where it is larger.
pub open spec fn saturated(n: int) -> int {
    if n > u64::MAX {
        u64::MAX as int
    } else {
        n
    }
}

/// A service that refuses requests with a message longer than
/// `max_recv_message_size`.
pub struct MaxRecvMessageSizeService<S> {
    /// The service that gets what is let through.
    pub inner: S,
    /// The largest message that is let through.
    pub max_recv_message_size: usize,
}

impl<S: Clone> Clone for MaxRecvMessageSizeService<S> {
    fn clone(&self) -> (r: Self)
        ensures
            cloned(self.inner, r.inner),
            r.max_recv_message_size == self.max_recv_message_size,
    {
        MaxRecvMessageSizeService {
            inner: self.inner.clone(),
            max_recv_message_size: self.max_recv_message_size,
        }
    }
}

/// Has `service` refuse messages longer than `max_recv_message_size`.
pub fn limit_recv_message_size<S>(service: S, max_recv_message_size: usize) -> (r:
    MaxRecvMessageSizeService<S>)
    ensures
        r == (MaxRecvMessageSizeService { inner: service, max_recv_message_size }),
{
    MaxRecvMessageSizeService { inner: service, max_recv_message_size }
}

/// A scan that starts at a frame passes over it where its payload is within the
/// limit, and stops at its header where not.
pub proof fn lemma_scan_frame(flag: u8, payload: Seq<u8>, rest: Seq<u8>, max: nat)
    requires
        payload.len() <= u32::MAX,
    ensures
        payload.len() > max ==> scan(ScanView::start(), frame(flag, payload) + rest, max) is Err,
        payload.len() <= max ==> scan(ScanView::start(), frame(flag, payload) + rest, max) is Ok
            == scan(ScanView::start(), rest, max) is Ok,
        payload.len() <= max && rest.len() > 0 ==> scan(
            ScanView::start(),
            frame(flag, payload) + rest,
            max,
        ) == scan(ScanView::start(), rest, max),
{
    let all = frame(flag, payload) + rest;
    let header = all.take(GRPC_FRAME_HEADER_LEN as int);
    let tail = all.skip(GRPC_FRAME_HEADER_LEN as int);
    lemma_frame_reads_back(flag, payload, rest);
    assert(all =~= header + tail);
    assert(tail =~= payload + rest);
    assert(Seq::<u8>::empty() + header =~= header);
    lemma_scan_full_header(Seq::empty(), header, max);
    lemma_scan_split(ScanView::start(), header, tail, max);
    if payload.len() <= max {
        if payload.len() == 0 {
            assert(tail =~= rest);
        } else {
            lemma_scan_payload(payload.len(), payload, max);
            lemma_scan_split(ScanView::Payload(payload.len()), payload, rest, max);
        }
    }
}

/// A stream of messages is let through just when none of them is longer than
/// the limit.
pub proof fn lemma_scan_accepts_iff_none_oversized(messages: Seq<(u8, Seq<u8>)>, max: nat)
    requires
        forall|i: int| 0 <= i < messages.len() ==> (#[trigger] messages[i]).1.len() <= u32::MAX,
    ensures
        scan(ScanView::start(), stream(messages), max) is Ok <==> (forall|i: int|
            0 <= i < messages.len() ==> (#[trigger] messages[i]).1.len() <= max),
    decreases messages.len(),
{
    if messages.len() > 0 {
        let later = messages.drop_first();
        lemma_scan_frame(messages[0].0, messages[0].1, stream(later), max);
        lemma_scan_accepts_iff_none_oversized(later, max);
        assert forall|i: int| 0 <= i < later.len() implies later[i] == messages[i + 1] by {}
        if forall|i: int| 0 <= i < later.len() ==> (#[trigger] later[i]).1.len() <= max {
            assert forall|i: int| 0 < i < messages.len() implies (#[trigger] messages[i]).1.len()
                <= max by {
                assert(later[i - 1] == messages[i]);
            }
        }
    }
}

/// After any number of messages within the limit, a header that declares a
/// longer one stops the scan at once, before any of its payload.
pub proof fn lemma_oversized_header_stops_scan(
    messages: Seq<(u8, Seq<u8>)>,
    header: Seq<u8>,
    rest: Seq<u8>,
    max: nat,
)
    requires
        forall|i: int| 0 <= i < messages.len() ==> (#[trigger] messages[i]).1.len() <= u32::MAX,
        forall|i: int| 0 <= i < messages.len() ==> (#[trigger] messages[i]).1.len() <= max,
        header.len() == GRPC_FRAME_HEADER_LEN,
        declared_len(header) > max,
    ensures
        scan(ScanView::start(), stream(messages) + header + rest, max) == Err::<
            ScanView,
            ScanView,
        >(ScanView::Header(header)),
    decreases messages.len(),
{
    if messages.len() == 0 {
        assert(stream(messages) + header + rest =~= header + rest);
        assert(Seq::<u8>::empty() + header =~= header);
        lemma_scan_full_header(Seq::empty(), header, max);
        lemma_scan_split(ScanView::start(), header, rest, max);
    } else {
        let later = messages.drop_first();
        assert forall|i: int| 0 <= i < later.len() implies later[i] == messages[i + 1] by {}
        lemma_oversized_header_stops_scan(later, header, rest, max);
        lemma_scan_frame(messages[0].0, messages[0].1, stream(later) + header + rest, max);
        assert(stream(messages) + header + rest =~= frame(messages[0].0, messages[0].1) + (stream(
            later,
        ) + header + rest));
    }
}

/// Whether frames that come one after another are all let through by a scan
/// that stands somewhere.
pub open spec fn passes(s: ScanView, frames: Seq<BodyFrame>, max: nat) -> bool
    decreases frames.len(),
{
    frames.len() == 0 || match scan(s, frames[0].data(), max) {
        Ok(t) => passes(t, frames.drop_first(), max),
        Err(_) => false,
    }
}

/// A body is let through to its end, with the frames that were read first and
/// those that follow, just when its data as a whole is. How much of it is read
/// first makes no difference.
pub proof fn lemma_whole_body_decides(front: Seq<BodyFrame>, rest: Seq<BodyFrame>, max: nat)
    ensures
        scan(ScanView::start(), data_of(front + rest), max) is Ok <==> match scan(
            ScanView::start(),
            data_of(front),
            max,
        ) {
            Ok(s) => passes(s, rest, max),
            Err(_) => false,
        },
    decreases rest.len(),
{
    if rest.len() == 0 {
        assert(front + rest =~= front);
    } else {
        let frame = rest[0];
        assert(front + rest =~= front.push(frame) + rest.drop_first());
        lemma_whole_body_decides(front.push(frame), rest.drop_first(), max);
        lemma_data_of_push(front, frame);
        lemma_scan_split(ScanView::start(), data_of(front), frame.data(), max);
    }
}

/// Once a scan has stopped at an oversized message, no later data is let
/// through.
pub proof fn lemma_scan_stays_stopped(s: ScanView, data: Seq<u8>, later: Seq<u8>, max: nat)
    requires
        s.wf(),
        scan(s, data, max) is Err,
        later.len() > 0,
    ensures
        scan(scan(s, data, max)->Err_0, later, max) is Err,
    decreases data.len(),
{
    match scan_byte(s, data[0], max) {
        Ok(t) => lemma_scan_stays_stopped(t, data.drop_first(), later, max),
        Err(t) => {},
    }
}

/// A scan from the start of a stream of messages lets it through just where no
/// message is longer than the limit, and refuses it with an exhausted resource
/// otherwise. The status tells the limit in decimal.
pub proof fn lemma_stream_is_scanned(
    data: &[u8],
    messages: Seq<(u8, Seq<u8>)>,
    state: &mut FrameScanState,
    max: usize,
    r: Result<(), Status>,
)
    requires
        state@ == ScanView::Header(Seq::empty()),
        data@ == stream(messages),
        forall|i: int| 0 <= i < messages.len() ==> (#[trigger] messages[i]).1.len() <= u32::MAX,
        call_ensures(scan_for_oversized_messages, (data, state, max), r),
    ensures
        r is Ok <==> forall|i: int|
            0 <= i < messages.len() ==> (#[trigger] messages[i]).1.len() <= max,
        r matches Err(s) ==> s@.code == Code::ResourceExhausted && exists|digits: Seq<char>|
            value_of(digits, 10) == max && s@.message == #[trigger] (
            "request exceeds configured max_recv_message_size of "@ + digits + " bytes"@),
{
    lemma_scan_accepts_iff_none_oversized(messages, max as nat);
    if r is Err {
        lemma_numeral_stands_for_its_number(max as nat, 10);
        let digits = decimal(max as nat);
        assert(value_of(digits, 10) == max && r->Err_0@.message == (
        "request exceeds configured max_recv_message_size of "@ + digits + " bytes"@));
    }
}

/// A message that declares more than the limit is refused as soon as its header
/// is there, and one that declares the limit or less is not refused for what its
/// header declares.
pub proof fn lemma_header_decides(
    data: &[u8],
    state: &mut FrameScanState,
    max: usize,
    r: Result<(), Status>,
)
    requires
        state@ == ScanView::Header(Seq::empty()),
        data@.len() >= 5,
        call_ensures(scan_for_oversized_messages, (data, state, max), r),
    ensures
        ((data@[1] * 256 + data@[2]) * 256 + data@[3]) * 256 + data@[4] > max ==> r is Err,
        ((data@[1] * 256 + data@[2]) * 256 + data@[3]) * 256 + data@[4] <= max && data@.len() <= 5
            + ((data@[1] * 256 + data@[2]) * 256 + data@[3]) * 256 + data@[4] ==> r is Ok,
{
    let header = data@.take(5);
    let tail = data@.skip(5);
    assert(data@ =~= header + tail);
    assert(Seq::<u8>::empty() + header =~= header);
    lemma_scan_full_header(Seq::empty(), header, max as nat);
    lemma_scan_split(ScanView::start(), header, tail, max as nat);
    let len = declared_len(header);
    if len <= max && data@.len() <= 5 + len {
        if tail.len() > 0 {
            lemma_scan_payload(len, tail, max as nat);
        }
    }
}

/// Data is let through in two pieces just where it is in one, wherever it is cut.
pub proof fn lemma_pieces_are_scanned_alike(
    first: &[u8],
    second: &[u8],
    whole: &[u8],
    state: &mut FrameScanState,
    between: &mut FrameScanState,
    other: &mut FrameScanState,
    max: usize,
    r: Result<(), Status>,
    s: Result<(), Status>,
    t: Result<(), Status>,
)
    requires
        state@.wf(),
        other@ == state@,
        whole@ == first@ + second@,
        call_ensures(scan_for_oversized_messages, (first, state, max), r),
        between@ == final(state)@,
        call_ensures(scan_for_oversized_messages, (second, between, max), s),
        call_ensures(scan_for_oversized_messages, (whole, other, max), t),
    ensures
        r is Err ==> t is Err,
        r is Ok ==> (t is Ok <==> s is Ok),
        r is Ok && s is Ok ==> final(between)@ == final(other)@,
{
    lemma_scan_split(state@, first@, second@, max as nat);
}

/// The leading frames of a body are read until five bytes of data are there, and
/// are kept in their order.
pub proof fn lemma_prefetch_reads_a_header(
    fresh: Prefetch,
    before: Prefetch,
    frame: BodyFrame,
    after: Prefetch,
    more: bool,
)
    requires
        call_ensures(Prefetch::new, (), fresh),
        call_ensures(Prefetch::push, (before, frame), after),
        data_of(before@).len() < 5,
        call_ensures(Prefetch::wants_more, (&after,), more),
    ensures
        fresh@.len() == 0,
        after@.len() == before@.len() + 1,
        after@.last() == frame,
        after@.drop_last() == before@,
        more <==> data_of(after@).len() < 5,
{
}

/// Once the leading frames were read, a body is refused just where a scan of
/// their data refuses it. One that is not refused replays every frame that was
/// read, in order, before the rest.
pub proof fn lemma_leading_frames_are_replayed<B>(
    leading: Prefetch,
    rest: B,
    max: usize,
    data: &[u8],
    state: &mut FrameScanState,
    scanned: Result<(), Status>,
    r: Result<PrefetchedBody<B>, Status>,
)
    requires
        call_ensures(Prefetch::finish::<B>, (leading, rest, max), r),
        data@ == data_of(leading@),
        state@ == ScanView::Header(Seq::empty()),
        call_ensures(scan_for_oversized_messages, (data, state, max), scanned),
    ensures
        r is Ok <==> scanned is Ok,
        r matches Ok(body) ==> body.buffered@ == leading@ && body.rest == rest
            && body.max_recv_message_size == max && body.scan_state@ == final(state)@,
        r matches Err(s) ==> s@.code == Code::ResourceExhausted,
{
}

/// Frames that were read come out one by one, in order, before any other, and
/// nothing else changes.
pub proof fn lemma_replay_keeps_order<B>(body: &mut PrefetchedBody<B>, r: Option<BodyFrame>)
    requires
        body.wf(),
        call_ensures(PrefetchedBody::<B>::next_buffered, (body,), r),
    ensures
        r is Some <==> old(body).buffered@.len() > 0,
        r matches Some(frame) ==> old(body).buffered@ == seq![frame] + final(body).buffered@,
        r is None ==> final(body).buffered@ == old(body).buffered@,
        final(body).rest == old(body).rest,
        final(body).max_recv_message_size == old(body).max_recv_message_size,
        final(body).scan_state@ == old(body).scan_state@,
{
    if body.buffered@.len() > 0 {
        assert(body.buffered@ =~= seq![body.buffered@[0]] + body.buffered@.skip(1));
    }
}

/// A frame of the rest is passed on as it is just where a scan of its data lets
/// it through, and is an exhausted resource otherwise. Trailers always pass.
pub proof fn lemma_rest_is_scanned<B>(
    body: &mut PrefetchedBody<B>,
    frame: BodyFrame,
    data: &[u8],
    state: &mut FrameScanState,
    scanned: Result<(), Status>,
    r: Result<BodyFrame, Status>,
)
    requires
        body.wf(),
        call_ensures(PrefetchedBody::<B>::on_rest, (body, frame), r),
        data@ == frame.data(),
        state@ == body.scan_state@,
        call_ensures(
            scan_for_oversized_messages,
            (data, state, body.max_recv_message_size),
            scanned,
        ),
    ensures
        r is Ok <==> scanned is Ok,
        r matches Ok(f) ==> f == frame,
        r matches Err(s) ==> s@.code == Code::ResourceExhausted,
        final(body).scan_state@ == final(state)@,
        frame is Trailers ==> r is Ok && final(body).scan_state@ == old(body).scan_state@,
        final(body).buffered@ == old(body).buffered@,
{
}

/// A body has ended once nothing waits and the rest has ended, and what waits is
/// counted on top of what the rest tells of its size, up to the largest number.
pub proof fn lemma_size_counts_what_waits<B>(
    body: PrefetchedBody<B>,
    lower: u64,
    upper: Option<u64>,
    rest_ended: bool,
    r: (u64, Option<u64>),
    ended: bool,
)
    requires
        body.wf(),
        call_ensures(PrefetchedBody::<B>::size_hint, (&body, lower, upper), r),
        call_ensures(PrefetchedBody::<B>::is_end_stream, (&body, rest_ended), ended),
    ensures
        lower + data_of(body.buffered@).len() <= u64::MAX ==> r.0 == lower + data_of(
            body.buffered@,
        ).len(),
        lower + data_of(body.buffered@).len() > u64::MAX ==> r.0 == u64::MAX,
        upper is None ==> r.1 is None,
        upper matches Some(u) ==> r.1 is Some && (u + data_of(body.buffered@).len() <= u64::MAX
            ==> r.1->0 == u + data_of(body.buffered@).len()) && (u + data_of(
            body.buffered@,
        ).len() > u64::MAX ==> r.1->0 == u64::MAX),
        ended <==> body.buffered@.len() == 0 && rest_ended,
{
}

/// A body that could not be read is an internal error that tells why, and a
/// service with a limit holds the service and the limit.
pub proof fn lemma_limit_settings<S>(
    error: &str,
    status: Status,
    service: S,
    max: usize,
    limited: MaxRecvMessageSizeService<S>,
)
    requires
        call_ensures(read_error, (error,), status),
        call_ensures(limit_recv_message_size::<S>, (service, max), limited),
    ensures
        status@.code == Code::Internal,
        status@.message == "failed to read request body while enforcing max_recv_message_size: "@
            + error@,
        limited.inner == service,
        limited.max_recv_message_size == max,
{
}

/// A scan starts at the start of a frame, with nothing of a header seen.
pub proof fn lemma_scan_starts(fresh: FrameScanState, default: FrameScanState)
    requires
        call_ensures(FrameScanState::start, (), fresh),
        call_ensures(<FrameScanState as Default>::default, (), default),
    ensures
        fresh@ == ScanView::Header(Seq::empty()),
        default@ == ScanView::Header(Seq::empty()),
{
}

} // verus!
