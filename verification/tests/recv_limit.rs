use armature_grpc::body::BodyFrame;
use armature_grpc::recv_limit::{
    limit_recv_message_size, read_error, scan_for_oversized_messages, FrameScanState,
    MaxRecvMessageSizeService, Prefetch, PrefetchedBody,
};
use armature_grpc::status::{Code, Status};
use bytes::Bytes;
use std::collections::VecDeque;

/// What a request body gives, in turn: a frame, or a failure.
type Inner = VecDeque<Result<BodyFrame, Status>>;

fn one_byte_frames(data: &[u8]) -> Inner {
    data.iter()
        .map(|b| Ok(BodyFrame::Data(Bytes::from(vec![*b]))))
        .collect()
}

fn next_of(body: &mut PrefetchedBody<Inner>) -> Option<Result<BodyFrame, Status>> {
    if let Some(frame) = body.next_buffered() {
        return Some(Ok(frame));
    }
    match body.rest.pop_front()? {
        Ok(frame) => Some(body.on_rest(frame)),
        Err(status) => Some(Err(status)),
    }
}

/// Reads a body to its end, as the inner service does.
fn collect(mut body: PrefetchedBody<Inner>) -> Result<Vec<u8>, Status> {
    let mut bytes = Vec::new();
    while let Some(frame) = next_of(&mut body) {
        if let BodyFrame::Data(data) = frame? {
            bytes.extend_from_slice(&data);
        }
    }
    Ok(bytes)
}

fn received(n: usize) -> Status {
    Status::new(Code::Success, format!("received {n} bytes"))
}

/// An inner service that reports how much it received.
fn echo(body: PrefetchedBody<Inner>) -> Status {
    received(collect(body).unwrap_or_default().len())
}

/// Like `echo`, but tells of a failure to read.
fn echo_surfacing_errors(body: PrefetchedBody<Inner>) -> Status {
    match collect(body) {
        Ok(bytes) => received(bytes.len()),
        Err(status) => status,
    }
}

type Service = fn(PrefetchedBody<Inner>) -> Status;

fn call(svc: &MaxRecvMessageSizeService<Service>, mut body: Inner) -> Status {
    let mut prefetch = Prefetch::new();
    while prefetch.wants_more() {
        match body.pop_front() {
            Some(Ok(frame)) => prefetch = prefetch.push(frame),
            Some(Err(e)) => return read_error(&e.display()),
            None => break,
        }
    }
    match prefetch.finish(body, svc.max_recv_message_size) {
        Ok(body) => (svc.inner)(body),
        Err(status) => status,
    }
}

fn limited(inner: Service, max_recv_message_size: usize) -> MaxRecvMessageSizeService<Service> {
    limit_recv_message_size(inner, max_recv_message_size)
}

fn message(payload: &[u8]) -> Vec<u8> {
    let mut out = vec![0u8];
    out.extend_from_slice(&(payload.len() as u32).to_be_bytes());
    out.extend_from_slice(payload);
    out
}

#[test]
fn fragmented_length_prefix_still_enforces_max_recv_message_size() {
    let declared_len: u32 = 1000;
    let mut full = vec![0u8]; // uncompressed flag
    full.extend_from_slice(&declared_len.to_be_bytes());
    full.extend(std::iter::repeat_n(b'x', declared_len as usize));

    let status = call(&limited(echo, 8), one_byte_frames(&full));
    assert_eq!(
        status.code(),
        Code::ResourceExhausted,
        "a fragmented length-prefix must still be size-checked, not waved through"
    );
    assert_eq!(
        status.message(),
        "request exceeds configured max_recv_message_size of 8 bytes"
    );
}

#[test]
fn fragmented_length_prefix_within_limit_reaches_inner_service_intact() {
    let payload_len: u32 = 4;
    let mut full = vec![0u8];
    full.extend_from_slice(&payload_len.to_be_bytes());
    full.extend_from_slice(b"data");

    let total_len = full.len();
    let status = call(&limited(echo, 1024), one_byte_frames(&full));
    assert_eq!(status.code(), Code::Success);
    assert_eq!(
        status.message(),
        format!("received {total_len} bytes"),
        "the reconstructed body must include every byte the fragmented body sent"
    );
}

#[test]
fn oversized_later_message_in_multi_message_stream_is_rejected() {
    let mut full = Vec::new();

    let msg1: &[u8] = b"ok"; // 2 bytes, within an 8-byte limit
    full.push(0u8);
    full.extend_from_slice(&(msg1.len() as u32).to_be_bytes());
    full.extend_from_slice(msg1);

    let msg2: &[u8] = b"al"; // 2 bytes, also within the limit
    full.push(0u8);
    full.extend_from_slice(&(msg2.len() as u32).to_be_bytes());
    full.extend_from_slice(msg2);

    // Third message declares a length well over the 8-byte limit.
    let declared_len3: u32 = 1000;
    full.push(0u8);
    full.extend_from_slice(&declared_len3.to_be_bytes());
    full.extend(std::iter::repeat_n(b'z', declared_len3 as usize));

    let status = call(&limited(echo_surfacing_errors, 8), one_byte_frames(&full));
    assert_eq!(
        status.code(),
        Code::ResourceExhausted,
        "a later oversized message in a multi-message stream must still be rejected, \
         not waved through after only the first message was checked"
    );
}

#[test]
fn oversized_request_is_rejected_when_message_size_limited() {
    // The encoded request: a field of text of well over 8 bytes.
    let name = b"a-service-name-that-is-definitely-longer-than-8-bytes";
    let mut encoded = vec![0x0a, name.len() as u8];
    encoded.extend_from_slice(name);
    let whole = Bytes::from(message(&encoded));
    let body: Inner = [Ok(BodyFrame::Data(whole))].into_iter().collect();
    assert_eq!(call(&limited(echo, 8), body).code(), Code::ResourceExhausted);
}

#[test]
fn transport_read_error_while_buffering_prefix_is_surfaced() {
    // 2 bytes: not enough to decide the size yet.
    let body: Inner = [
        Ok(BodyFrame::Data(Bytes::from_static(b"ab"))),
        Err(Status::new(
            Code::Unavailable,
            "simulated transport read error".to_string(),
        )),
    ]
    .into_iter()
    .collect();

    let status = call(&limited(echo, 1024), body);
    assert_eq!(
        status.code(),
        Code::Internal,
        "a transport read error must be surfaced as an error status, not silently dropped"
    );
    assert_eq!(
        status.message(),
        "failed to read request body while enforcing max_recv_message_size: code: 'The service \
         is currently unavailable', message: \"simulated transport read error\""
    );
}

#[test]
fn short_and_empty_bodies_reach_the_inner_service() {
    assert_eq!(call(&limited(echo, 0), Inner::new()).message(), "received 0 bytes");
    let status = call(&limited(echo, 0), one_byte_frames(b"abc"));
    assert_eq!(status.message(), "received 3 bytes");
}

#[test]
fn a_message_of_just_the_limit_passes() {
    let exact = one_byte_frames(&message(b"12345678"));
    assert_eq!(call(&limited(echo, 8), exact).message(), "received 13 bytes");
    let over = one_byte_frames(&message(b"123456789"));
    assert_eq!(call(&limited(echo, 8), over).code(), Code::ResourceExhausted);
}

#[test]
fn chunks_make_no_difference_to_a_scan() {
    let mut good = message(b"");
    good.extend(message(b"abc"));
    good.extend(message(b"12345678"));
    let mut bad = good.clone();
    bad.extend([1, 0, 0, 0, 9]);
    for chunk in 1..=bad.len() {
        let mut state = FrameScanState::default();
        for c in good.chunks(chunk) {
            assert!(scan_for_oversized_messages(c, &mut state, 8).is_ok());
        }
        let mut state = FrameScanState::default();
        let refused = bad
            .chunks(chunk)
            .any(|c| scan_for_oversized_messages(c, &mut state, 8).is_err());
        assert!(refused, "an oversized header must be refused without its payload");
        assert!(
            scan_for_oversized_messages(b"x", &mut state, 8).is_err(),
            "what follows an oversized header must be refused too"
        );
        assert!(scan_for_oversized_messages(b"", &mut state, 8).is_ok());
    }
}

#[test]
fn frames_are_replayed_unchanged_and_counted() {
    let mut trailers = http::HeaderMap::new();
    trailers.insert("grpc-status", http::HeaderValue::from_static("0"));
    let prefetch = Prefetch::new()
        .push(BodyFrame::Data(Bytes::from_static(b"ab")))
        .push(BodyFrame::Trailers(trailers))
        .push(BodyFrame::Data(Bytes::from_static(b"cdefg")));
    assert!(!prefetch.wants_more());
    let Ok(mut body) = prefetch.finish(Inner::new(), usize::MAX) else {
        panic!("within the limit");
    };
    assert!(!body.is_end_stream(true));
    assert_eq!(body.size_hint(10, Some(20)), (17, Some(27)));
    assert_eq!(body.size_hint(0, None), (7, None));
    assert_eq!(body.size_hint(u64::MAX, Some(u64::MAX)), (u64::MAX, Some(u64::MAX)));

    assert!(matches!(body.next_buffered(), Some(BodyFrame::Data(d)) if d[..] == b"ab"[..]));
    assert_eq!(body.size_hint(0, Some(0)), (5, Some(5)));
    assert!(matches!(
        body.next_buffered(),
        Some(BodyFrame::Trailers(t)) if t.get("grpc-status").unwrap() == "0"
    ));
    assert!(matches!(body.next_buffered(), Some(BodyFrame::Data(d)) if d[..] == b"cdefg"[..]));
    assert!(body.next_buffered().is_none());
    assert!(body.is_end_stream(true));
    assert!(!body.is_end_stream(false));

    let trailers = BodyFrame::Trailers(http::HeaderMap::new());
    assert!(matches!(body.on_rest(trailers), Ok(BodyFrame::Trailers(_))));
}

#[test]
fn a_service_is_cloned_with_its_limit() {
    let svc = limited(echo, 12).clone();
    assert_eq!(svc.max_recv_message_size, 12);
}
