use armature_grpc::body::BodyFrame;
use armature_grpc::codec::CompressionEncoding;
use armature_grpc::compression::{BodyAction, CompressionBody, DEFAULT_MAX_DECOMPRESSED_SIZE};
use armature_grpc::headers::{accept_encoding_contains, list_contains, HeadersFull};
use armature_grpc::middleware::GrpcMiddleware;
use armature_grpc::negotiation::{
    CompressionClientService, CompressionMiddleware, CompressionService, ServerPlan,
};
use bytes::{BufMut, Bytes, BytesMut};
use http::{HeaderMap, HeaderValue};

fn frame(flag: u8, payload: &[u8]) -> Bytes {
    let mut out = BytesMut::with_capacity(5 + payload.len());
    out.put_u8(flag);
    out.put_u32(payload.len() as u32);
    out.put_slice(payload);
    out.freeze()
}

/// Sends a body of one chunk through, and joins what comes out.
fn through(mut body: CompressionBody<Option<Bytes>>) -> Bytes {
    let mut out = BytesMut::new();
    loop {
        match body.next_action() {
            BodyAction::Emit(bytes) => out.extend_from_slice(&bytes),
            BodyAction::Fail(status) => panic!("{}", status.message()),
            BodyAction::End => return out.freeze(),
            BodyAction::Pull => match body.inner.take() {
                Some(bytes) => {
                    assert!(body.on_frame(BodyFrame::Data(bytes)).is_none());
                }
                None => body.on_end(),
            },
        }
    }
}

type Handler = fn(HeaderMap, Bytes) -> (HeaderMap, Bytes);

/// A server's side of a call: the request's headers and body in, the
/// response's out.
fn serve(
    svc: &CompressionService<Handler>,
    mut headers: HeaderMap,
    body: Bytes,
) -> (HeaderMap, Bytes) {
    let plan = svc.on_request(&mut headers);
    let body = if plan.decompress {
        through(svc.request_body(Some(body)))
    } else {
        body
    };
    let (mut headers, body) = (svc.inner)(headers, body);
    if svc.on_response(plan, &mut headers).unwrap() {
        (headers, through(svc.response_body(Some(body))))
    } else {
        (headers, body)
    }
}

/// A client's side of a call.
fn call(
    svc: &CompressionClientService<Handler>,
    mut headers: HeaderMap,
    body: Bytes,
) -> (HeaderMap, Bytes) {
    let body = if svc.on_request(&mut headers).unwrap() {
        through(svc.request_body(Some(body)))
    } else {
        body
    };
    let (mut headers, body) = (svc.inner)(headers, body);
    if svc.on_response(&mut headers) {
        (headers, through(svc.response_body(Some(body))))
    } else {
        (headers, body)
    }
}

#[test]
fn compression_service_decompresses_request_and_compresses_response() {
    let original_request_text = b"hello, this is the original uncompressed request payload text";
    let compressed_request = CompressionEncoding::Gzip
        .compress_bytes(original_request_text)
        .unwrap();
    let request_frame = frame(1, &compressed_request); // flag=1: compressed

    let mut headers = HeaderMap::new();
    headers.insert("grpc-encoding", HeaderValue::from_static("gzip"));
    headers.insert("grpc-accept-encoding", HeaderValue::from_static("gzip"));

    let inner: Handler = |headers, received| {
        assert!(headers.get("grpc-encoding").is_none());
        assert_eq!(received[0], 0, "decompressed frame must carry flag=0");
        assert_eq!(
            &received[5..],
            b"hello, this is the original uncompressed request payload text"
        );
        (HeaderMap::new(), frame(0, &vec![b'a'; 4096]))
    };
    let svc = CompressionMiddleware::gzip().wrap_server(inner);
    let (resp_headers, resp_bytes) = serve(&svc, headers, request_frame);

    let response_payload = vec![b'a'; 4096];
    assert_eq!(resp_headers.get("grpc-encoding").unwrap(), "gzip");
    assert_eq!(
        resp_bytes[0], 1,
        "response frame must carry flag=1 (compressed)"
    );
    let resp_len =
        u32::from_be_bytes([resp_bytes[1], resp_bytes[2], resp_bytes[3], resp_bytes[4]]) as usize;
    let resp_payload = &resp_bytes[5..5 + resp_len];
    assert!(
        resp_payload.len() < response_payload.len(),
        "compressed payload ({} bytes) must be smaller than the original ({} bytes) — \
         proves real compression happened, not a no-op",
        resp_payload.len(),
        response_payload.len()
    );
    let decompressed = CompressionEncoding::Gzip
        .decompress_bytes(resp_payload, DEFAULT_MAX_DECOMPRESSED_SIZE)
        .unwrap();
    assert_eq!(decompressed, response_payload.to_vec());
}

#[test]
fn compression_client_service_compresses_request_and_decompresses_response() {
    let server_like: Handler = |headers, bytes| {
        assert_eq!(
            headers.get("grpc-encoding").unwrap(),
            "gzip",
            "the client must advertise the encoding it used"
        );
        assert_eq!(headers.get("grpc-accept-encoding").unwrap(), "gzip");
        assert_eq!(
            bytes[0], 1,
            "the outgoing request must actually be compressed (flag=1)"
        );
        let len = u32::from_be_bytes([bytes[1], bytes[2], bytes[3], bytes[4]]) as usize;
        let decompressed = CompressionEncoding::Gzip
            .decompress_bytes(&bytes[5..5 + len], DEFAULT_MAX_DECOMPRESSED_SIZE)
            .unwrap();
        assert_eq!(
            decompressed,
            b"the client's original outgoing message, sent uncompressed"
        );

        let response_payload = vec![b'z'; 2048];
        let compressed = CompressionEncoding::Gzip
            .compress_bytes(&response_payload)
            .unwrap();
        let mut headers = HeaderMap::new();
        headers.insert("grpc-encoding", HeaderValue::from_static("gzip"));
        (headers, frame(1, &compressed))
    };

    let svc = CompressionMiddleware::gzip().wrap_channel(server_like);
    let (headers, bytes) = call(
        &svc,
        HeaderMap::new(),
        frame(0, b"the client's original outgoing message, sent uncompressed"),
    );

    assert!(
        headers.get("grpc-encoding").is_none(),
        "a fully-decompressed response should have grpc-encoding stripped"
    );
    assert_eq!(bytes[0], 0, "decompressed response frame must carry flag=0");
    let len = u32::from_be_bytes([bytes[1], bytes[2], bytes[3], bytes[4]]) as usize;
    assert_eq!(&bytes[5..5 + len], vec![b'z'; 2048].as_slice());
}

#[test]
fn none_encoding_server_passes_body_through_byte_for_byte() {
    let original_payload = b"an uncompressed request with no grpc-encoding header at all";
    // flag=1 deliberately: only such a frame would be relabelled.
    let request_frame = frame(1, original_payload);

    let inner: Handler = |_, received| {
        assert_eq!(
            received,
            frame(1, b"an uncompressed request with no grpc-encoding header at all"),
            "a None-encoding middleware must forward the request frame byte-for-byte unmodified"
        );
        (HeaderMap::new(), frame(0, b"an uncompressed response payload"))
    };
    let svc = CompressionMiddleware::new(CompressionEncoding::Identity).wrap_server(inner);
    let (headers, resp_bytes) = serve(&svc, HeaderMap::new(), request_frame);

    assert!(headers.is_empty());
    assert_eq!(
        resp_bytes,
        frame(0, b"an uncompressed response payload"),
        "a None-encoding middleware must forward the response frame byte-for-byte unmodified"
    );
}

#[test]
fn none_encoding_client_passes_body_through_byte_for_byte() {
    let server_like: Handler = |headers, received| {
        assert!(
            headers.get("grpc-encoding").is_none(),
            "a None-encoding client must not set grpc-encoding"
        );
        assert_eq!(
            received,
            frame(0, b"client request, sent uncompressed"),
            "a None-encoding client must forward the request frame byte-for-byte unmodified"
        );
        (HeaderMap::new(), frame(0, b"server response, also uncompressed"))
    };
    let svc = CompressionMiddleware::new(CompressionEncoding::Identity).wrap_channel(server_like);

    let request_frame = frame(0, b"client request, sent uncompressed");
    let (_, resp_bytes) = call(&svc, HeaderMap::new(), request_frame);
    assert_eq!(
        resp_bytes,
        frame(0, b"server response, also uncompressed"),
        "a None-encoding client must forward the response frame byte-for-byte unmodified"
    );
}

#[test]
fn the_two_sides_agree() {
    for middleware in [CompressionMiddleware::gzip(), CompressionMiddleware::zstd()] {
        let client = middleware.wrap_channel(());
        let server = middleware.wrap_server(());

        let mut request = HeaderMap::new();
        request.insert("te", HeaderValue::from_static("trailers"));
        assert!(client.on_request(&mut request).unwrap());
        let plan = server.on_request(&mut request);
        assert_eq!(plan, ServerPlan { decompress: true, compress_response: true });
        assert!(request.get("grpc-encoding").is_none());
        assert_eq!(request.get("te").unwrap(), "trailers");

        let mut response = HeaderMap::new();
        assert!(server.on_response(plan, &mut response).unwrap());
        assert!(client.on_response(&mut response));
        assert!(response.is_empty());
    }
}

#[test]
fn another_encoding_is_passed_on() {
    let client = CompressionMiddleware::zstd().wrap_channel(());
    let server = CompressionMiddleware::gzip().wrap_server(());
    let mut request = HeaderMap::new();
    client.on_request(&mut request).unwrap();
    let before = request.clone();
    let plan = server.on_request(&mut request);
    assert_eq!(plan, ServerPlan { decompress: false, compress_response: false });
    assert_eq!(request, before);

    let mut response = HeaderMap::new();
    assert!(!server.on_response(plan, &mut response).unwrap());
    assert!(response.is_empty());
    response.insert("grpc-encoding", HeaderValue::from_static("gzip"));
    assert!(!client.on_response(&mut response));
    assert_eq!(response.get("grpc-encoding").unwrap(), "gzip");
}

#[test]
fn only_the_first_encoding_header_counts_and_all_are_removed() {
    let server = CompressionMiddleware::gzip().wrap_server(());
    let mut request = HeaderMap::new();
    request.append("grpc-encoding", HeaderValue::from_static("gzip"));
    request.append("grpc-encoding", HeaderValue::from_static("zstd"));
    assert!(server.on_request(&mut request).decompress);
    assert!(request.is_empty());

    request.append("grpc-encoding", HeaderValue::from_static("identity"));
    request.append("grpc-encoding", HeaderValue::from_static("gzip"));
    assert!(!server.on_request(&mut request).decompress);
    assert_eq!(request.len(), 2);
}

#[test]
fn accepted_encodings_are_a_list() {
    let mut headers = HeaderMap::new();
    assert!(!accept_encoding_contains(&headers, "gzip"));
    headers.insert(
        "grpc-accept-encoding",
        HeaderValue::from_static("identity,\tgzip , zstd"),
    );
    assert!(accept_encoding_contains(&headers, "gzip"));
    assert!(accept_encoding_contains(&headers, "zstd"));
    assert!(accept_encoding_contains(&headers, "identity"));
    assert!(!accept_encoding_contains(&headers, "gz"));
    assert!(!accept_encoding_contains(&headers, ""));
    headers.insert(
        "grpc-accept-encoding",
        HeaderValue::from_bytes(b"gzip,\xff").unwrap(),
    );
    assert!(!accept_encoding_contains(&headers, "gzip"));

    assert!(list_contains(b"", b""));
    assert!(list_contains(b"a,,b", b""));
    assert!(list_contains(b" a ", b"a"));
    assert!(!list_contains(b"a b", b"a"));
    assert!(!list_contains(b"a,b", b"a,b"));
}

#[test]
fn the_middleware_holds_its_settings() {
    let middleware = CompressionMiddleware::gzip();
    assert_eq!(middleware.encoding(), CompressionEncoding::Gzip);
    assert_eq!(middleware.max_decompressed_size(), 4194304);
    let middleware = CompressionMiddleware::zstd().with_max_decompressed_size(7);
    assert_eq!(middleware.encoding(), CompressionEncoding::Zstd);
    assert_eq!(middleware.max_decompressed_size(), 7);
    let svc = middleware.wrap(5u8).clone();
    assert_eq!(svc.inner, 5);
    assert_eq!(svc.encoding, CompressionEncoding::Zstd);
    assert_eq!(svc.max_decompressed_size, 7);
    let channel = middleware.wrap_channel(6u8).clone();
    assert_eq!(channel.inner, 6);
    assert_eq!(channel.max_decompressed_size, 7);
}

/// Headers with as many names as they can hold but `spare`.
fn headers_with_room_for(spare: usize) -> HeaderMap {
    let mut headers = HeaderMap::new();
    for i in 0..24576 - spare {
        let name = http::HeaderName::from_bytes(format!("n{i}").as_bytes()).unwrap();
        headers.insert(name, HeaderValue::from_static("v"));
    }
    headers
}

#[test]
fn marks_need_room() {
    let client = CompressionMiddleware::gzip().wrap_channel(());
    let server = CompressionMiddleware::gzip().wrap_server(());
    let plan = ServerPlan { decompress: false, compress_response: true };
    let idle = ServerPlan { decompress: false, compress_response: false };

    let mut headers = headers_with_room_for(2);
    assert_eq!(client.on_request(&mut headers), Ok(true));
    assert_eq!(headers.len(), 24576);

    let mut headers = headers_with_room_for(1);
    assert_eq!(client.on_request(&mut headers), Err(HeadersFull));
    assert_eq!(headers.get("grpc-encoding").unwrap(), "gzip");
    assert!(headers.get("grpc-accept-encoding").is_none());

    let mut headers = headers_with_room_for(1);
    assert_eq!(server.on_response(plan, &mut headers), Ok(true));
    let mut headers = headers_with_room_for(0);
    assert_eq!(server.on_response(plan, &mut headers), Err(HeadersFull));
    assert!(headers.get("grpc-encoding").is_none());

    // Where there is nothing to insert, no room is needed.
    assert_eq!(server.on_response(idle, &mut headers), Ok(false));
    let identity = CompressionMiddleware::new(CompressionEncoding::Identity);
    assert_eq!(identity.wrap_channel(()).on_request(&mut headers), Ok(false));
    assert_eq!(identity.wrap_server(()).on_response(plan, &mut headers), Ok(false));
    assert_eq!(headers.len(), 24576);
}
