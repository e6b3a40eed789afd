use armature_grpc::body::BodyFrame;
use armature_grpc::codec::CompressionEncoding;
use armature_grpc::compression::{
    BodyAction, CompressionBody, Direction, DEFAULT_MAX_DECOMPRESSED_SIZE,
};
use armature_grpc::frame::GRPC_FRAME_HEADER_LEN;
use armature_grpc::status::{Code, Status};
use bytes::{BufMut, Bytes, BytesMut};
use std::collections::VecDeque;

fn frame(flag: u8, payload: &[u8]) -> Bytes {
    let mut out = BytesMut::with_capacity(5 + payload.len());
    out.put_u8(flag);
    out.put_u32(payload.len() as u32);
    out.put_slice(payload);
    out.freeze()
}

type Queue = VecDeque<BodyFrame>;

fn queue(frames: Vec<Bytes>) -> Queue {
    frames.into_iter().map(BodyFrame::Data).collect()
}

/// What a poll gives: a frame or a failure, the end, or nothing yet.
enum Polled {
    Frame(Result<BodyFrame, Status>),
    End,
    Pending,
}

/// Polls a body over a queue of frames. With `ended`, the queue is all there
/// will be.
fn poll(body: &mut CompressionBody<Queue>, ended: bool) -> Polled {
    loop {
        match body.next_action() {
            BodyAction::Emit(bytes) => return Polled::Frame(Ok(BodyFrame::Data(bytes))),
            BodyAction::Fail(status) => return Polled::Frame(Err(status)),
            BodyAction::End => return Polled::End,
            BodyAction::Pull => match body.inner.pop_front() {
                Some(frame) => {
                    if let Some(result) = body.on_frame(frame) {
                        return Polled::Frame(result);
                    }
                }
                None if ended => body.on_end(),
                None => return Polled::Pending,
            },
        }
    }
}

fn next_frame(body: &mut CompressionBody<Queue>) -> Option<Result<BodyFrame, Status>> {
    match poll(body, true) {
        Polled::Frame(result) => Some(result),
        Polled::End => None,
        Polled::Pending => unreachable!(),
    }
}

fn data_of(frame: BodyFrame) -> Bytes {
    match frame {
        BodyFrame::Data(data) => data,
        BodyFrame::Trailers(_) => panic!("expected a data frame"),
    }
}

#[test]
fn compression_body_forwards_trailers_frame() {
    let payload = vec![b'q'; 512];
    let mut trailers = http::HeaderMap::new();
    trailers.insert("grpc-status", http::HeaderValue::from_static("0"));
    trailers.insert("grpc-message", http::HeaderValue::from_static("ok"));

    let mut inner = queue(vec![frame(0, &payload)]);
    inner.push_back(BodyFrame::Trailers(trailers.clone()));
    let mut body = CompressionBody::new(
        inner,
        CompressionEncoding::Gzip,
        Direction::Compress,
        DEFAULT_MAX_DECOMPRESSED_SIZE,
    );

    let data = data_of(next_frame(&mut body).unwrap().unwrap());
    assert_eq!(
        data[0], 1,
        "the data frame must have been compressed (flag=1)"
    );
    let Some(Ok(BodyFrame::Trailers(got_trailers))) = next_frame(&mut body) else {
        panic!("the trailers frame must survive (de)compression");
    };
    assert_eq!(
        got_trailers.get("grpc-status").unwrap(),
        "0",
        "grpc-status must be preserved through compression"
    );
    assert_eq!(got_trailers.get("grpc-message").unwrap(), "ok");
    assert!(next_frame(&mut body).is_none());
}

#[test]
fn compression_body_rejects_single_oversized_message() {
    let payload = vec![0u8; 4000];
    let one = CompressionEncoding::Gzip.compress_bytes(&payload).unwrap();

    // Cap below the single message's decompressed size (4000).
    let mut body = CompressionBody::new(
        queue(vec![frame(1, &one)]),
        CompressionEncoding::Gzip,
        Direction::Decompress,
        2500,
    );

    let err = next_frame(&mut body)
        .expect("a frame poll is expected")
        .expect_err("an oversized single message must be rejected");
    assert_eq!(
        err.code(),
        Code::ResourceExhausted,
        "exceeding the per-message decompressed-size cap must yield resource_exhausted"
    );
}

fn header_with_len(len: u32) -> Bytes {
    let base = frame(1, &[]);
    let mut hdr = BytesMut::from(&base[..]);
    hdr[1..5].copy_from_slice(&len.to_be_bytes());
    hdr.freeze()
}

#[test]
fn compression_body_rejects_oversized_declared_frame_length_before_buffering() {
    let cap = 1024usize;
    let mut body = CompressionBody::new(
        queue(vec![header_with_len(64u32 * 1024 * 1024)]),
        CompressionEncoding::Gzip,
        Direction::Decompress,
        cap,
    );

    let err = next_frame(&mut body)
        .expect("a frame poll is expected")
        .expect_err("an over-cap declared frame length must be rejected on the header alone");
    assert_eq!(
        err.code(),
        Code::ResourceExhausted,
        "an over-large declared frame length must yield resource_exhausted early"
    );
    assert_eq!(
        err.message(),
        "compressed gRPC frame length 67108864 exceeds max_decompressed_size of 1024 bytes \
         (with headroom)"
    );
}

#[test]
fn compression_body_delivers_stream_whose_messages_sum_over_cap() {
    let payload = vec![0u8; 1000];
    let one = CompressionEncoding::Gzip.compress_bytes(&payload).unwrap();

    const N: usize = 5;
    let mut all = BytesMut::new();
    for _ in 0..N {
        all.extend_from_slice(&frame(1, &one));
    }

    let mut body = CompressionBody::new(
        queue(vec![all.freeze()]),
        CompressionEncoding::Gzip,
        Direction::Decompress,
        2500,
    );

    for i in 0..N {
        let f = next_frame(&mut body)
            .unwrap_or_else(|| panic!("message {i} should be delivered incrementally"))
            .unwrap_or_else(|e| {
                panic!(
                    "message {i} must be delivered in full (no aggregate termination), \
                     got error: {}",
                    e.message()
                )
            });
        let d = data_of(f);
        assert_eq!(d[0], 0, "decompressed frame must carry flag=0");
        assert_eq!(&d[GRPC_FRAME_HEADER_LEN..], &payload[..]);
    }

    assert!(
        next_frame(&mut body).is_none(),
        "the stream must end cleanly after all messages are delivered"
    );
}

#[test]
fn compression_body_accepts_incompressible_frame_whose_compressed_len_exceeds_cap() {
    let cap = 4000usize;
    let mut payload = vec![0u8; cap];
    for (i, b) in payload.iter_mut().enumerate() {
        let mut z = (i as u64).wrapping_mul(0x9e3779b97f4a7c15);
        z = (z ^ (z >> 30)).wrapping_mul(0xbf58476d1ce4e5b9);
        z = (z ^ (z >> 27)).wrapping_mul(0x94d049bb133111eb);
        *b = (z ^ (z >> 31)) as u8;
    }
    let compressed = CompressionEncoding::Gzip.compress_bytes(&payload).unwrap();
    assert!(
        compressed.len() > cap,
        "test premise: an incompressible payload must compress to just over \
         the cap (got compressed len {} vs cap {cap})",
        compressed.len()
    );
    assert!(
        compressed.len() - cap <= cap / 64 + 64,
        "test premise: overhead must sit inside the headroom band"
    );

    let mut body = CompressionBody::new(
        queue(vec![frame(1, &compressed)]),
        CompressionEncoding::Gzip,
        Direction::Decompress,
        cap,
    );

    let f = next_frame(&mut body)
        .expect("a frame is expected")
        .expect("an incompressible frame within the output cap must be accepted");
    let d = data_of(f);
    assert_eq!(d[0], 0, "decompressed frame must carry flag=0");
    assert_eq!(
        &d[GRPC_FRAME_HEADER_LEN..],
        &payload[..],
        "the incompressible payload must round-trip intact"
    );
}

#[test]
fn compression_body_early_guard_headroom_boundary() {
    let cap = 4096usize;
    let headroom = cap / 64 + 64; // 64 + 64 = 128
    let at_boundary = cap + headroom; // largest len the guard still admits
    let over_boundary = at_boundary + 1; // first len the guard rejects

    let mut body = CompressionBody::new(
        queue(vec![header_with_len(at_boundary as u32)]),
        CompressionEncoding::Gzip,
        Direction::Decompress,
        cap,
    );
    let err = next_frame(&mut body)
        .expect("a frame poll is expected")
        .expect_err("a truncated body must error");
    assert_eq!(
        err.code(),
        Code::Internal,
        "a frame at the headroom boundary must pass the guard (truncation, not \
         resource_exhausted)"
    );
    assert_eq!(
        err.message(),
        "truncated gRPC message: body ended mid-frame while (de)compressing"
    );

    let mut body = CompressionBody::new(
        queue(vec![header_with_len(over_boundary as u32)]),
        CompressionEncoding::Gzip,
        Direction::Decompress,
        cap,
    );
    let err = next_frame(&mut body)
        .expect("a frame poll is expected")
        .expect_err("a frame past the headroom boundary must be rejected");
    assert_eq!(
        err.code(),
        Code::ResourceExhausted,
        "a declared length past the headroom band must be rejected early"
    );
}

#[test]
fn compression_body_rejects_single_oversized_message_zstd() {
    let payload = vec![0u8; 4000];
    let one = CompressionEncoding::Zstd.compress_bytes(&payload).unwrap();

    let mut body = CompressionBody::new(
        queue(vec![frame(1, &one)]),
        CompressionEncoding::Zstd,
        Direction::Decompress,
        2500,
    );

    let err = next_frame(&mut body)
        .expect("a frame poll is expected")
        .expect_err("an oversized single zstd message must be rejected");
    assert_eq!(
        err.code(),
        Code::ResourceExhausted,
        "exceeding the per-message decompressed-size cap must yield resource_exhausted"
    );
}

#[test]
fn compression_body_emits_first_message_before_second_is_available() {
    let payload1 = vec![b'x'; 100];
    let payload2 = vec![b'y'; 100];
    let mut body = CompressionBody::new(
        queue(vec![frame(0, &payload1)]),
        CompressionEncoding::Gzip,
        Direction::Compress,
        DEFAULT_MAX_DECOMPRESSED_SIZE,
    );

    // Message 1 is delivered while message 2's data is not there yet.
    let Polled::Frame(Ok(f1)) = poll(&mut body, false) else {
        panic!("first frame must arrive");
    };
    let d1 = data_of(f1);
    assert_eq!(d1[0], 1, "message 1 must be compressed (flag=1)");
    let out1 = CompressionEncoding::Gzip
        .decompress_bytes(&d1[GRPC_FRAME_HEADER_LEN..], 10_000)
        .unwrap();
    assert_eq!(
        out1, payload1,
        "the first emitted message must be message 1"
    );
    assert!(matches!(poll(&mut body, false), Polled::Pending));

    // Now message 2 comes, and must follow.
    body.inner.push_back(BodyFrame::Data(frame(0, &payload2)));
    let Polled::Frame(Ok(f2)) = poll(&mut body, false) else {
        panic!("second frame must arrive");
    };
    let d2 = data_of(f2);
    let out2 = CompressionEncoding::Gzip
        .decompress_bytes(&d2[GRPC_FRAME_HEADER_LEN..], 10_000)
        .unwrap();
    assert_eq!(
        out2, payload2,
        "the second emitted message must be message 2"
    );

    assert!(
        next_frame(&mut body).is_none(),
        "the stream must end cleanly after both messages"
    );
    assert!(body.is_end_stream());
}

fn run(
    bytes: &[u8],
    chunk: usize,
    encoding: CompressionEncoding,
    direction: Direction,
    max: usize,
) -> (Vec<Bytes>, Option<Status>) {
    let chunks = bytes.chunks(chunk).map(|c| Bytes::from(c.to_vec())).collect();
    let mut body = CompressionBody::new(queue(chunks), encoding, direction, max);
    let mut sent = Vec::new();
    loop {
        match next_frame(&mut body) {
            Some(Ok(f)) => sent.push(data_of(f)),
            Some(Err(status)) => return (sent, Some(status)),
            None => return (sent, None),
        }
    }
}

#[test]
fn chunks_make_no_difference_and_the_wire_round_trips() {
    let payloads: [&[u8]; 4] = [b"", b"one", &[7u8; 3000], b"last"];
    for encoding in [CompressionEncoding::Gzip, CompressionEncoding::Zstd] {
        let mut plain = Vec::new();
        for p in payloads {
            plain.extend_from_slice(&frame(0, p));
        }
        let (whole, status) = run(&plain, usize::MAX, encoding, Direction::Compress, 1);
        assert!(status.is_none());
        assert_eq!(whole.len(), 4);
        let wire: Vec<u8> = whole.concat();
        for chunk in [1, 2, 5, 7, 1000] {
            let (sent, status) = run(&plain, chunk, encoding, Direction::Compress, 1);
            assert!(status.is_none());
            assert_eq!(sent, whole);
            let (back, status) = run(&wire, chunk, encoding, Direction::Decompress, 3000);
            assert!(status.is_none());
            assert_eq!(back.concat(), plain);
        }
    }
}

#[test]
fn messages_of_the_other_flag_pass_unchanged() {
    let mut bytes = frame(0, b"plain").to_vec();
    bytes.extend_from_slice(&frame(7, b"odd"));
    let (sent, status) = run(&bytes, 3, CompressionEncoding::Gzip, Direction::Decompress, 10);
    assert!(status.is_none());
    assert_eq!(sent, vec![frame(0, b"plain"), frame(7, b"odd")]);

    let bytes = frame(1, b"compressed already");
    let (sent, status) = run(&bytes, 3, CompressionEncoding::Gzip, Direction::Compress, 10);
    assert!(status.is_none());
    assert_eq!(sent, vec![bytes]);
}

#[test]
fn a_corrupt_message_fails_and_later_ones_go_on() {
    let mut bytes = frame(1, b"no gzip stream").to_vec();
    bytes.extend_from_slice(&frame(0, b"after"));
    let mut body = CompressionBody::new(
        queue(vec![Bytes::from(bytes)]),
        CompressionEncoding::Gzip,
        Direction::Decompress,
        100,
    );
    let err = next_frame(&mut body).unwrap().unwrap_err();
    assert_eq!(err.code(), Code::Internal);
    assert!(err.message().starts_with("failed to decompress gRPC message: "));
    assert_eq!(data_of(next_frame(&mut body).unwrap().unwrap()), frame(0, b"after"));
}

#[test]
fn trailers_inside_a_message_are_a_truncation() {
    let mut inner = queue(vec![Bytes::from_static(&[0, 0, 0])]);
    inner.push_back(BodyFrame::Trailers(http::HeaderMap::new()));
    let mut body =
        CompressionBody::new(inner, CompressionEncoding::Gzip, Direction::Compress, 100);
    let err = next_frame(&mut body).unwrap().unwrap_err();
    assert_eq!(err.code(), Code::Internal);
    assert_eq!(
        err.message(),
        "truncated gRPC message before trailers while (de)compressing"
    );
}

#[test]
fn directions_match_flags() {
    assert_eq!(Direction::Compress.matching_flag(), 0);
    assert_eq!(Direction::Decompress.matching_flag(), 1);
}
