use armature_grpc::codec::{
    decompress_error_to_status, read_bounded, window_log_for, CompressionEncoding, DecompressError,
};
use armature_grpc::status::Code;
use std::io::Write;

/// A gzip stream of `n` times the same megabyte of zeros. Each megabyte is
/// compressed by itself, so that the stream is quickly put together.
fn gzip_of_zeros(n: usize) -> Vec<u8> {
    let chunk = vec![0u8; 1024 * 1024];
    let mut block = Vec::with_capacity(64 * 1024);
    flate2::Compress::new(flate2::Compression::default(), false)
        .compress_vec(&chunk, &mut block, flate2::FlushCompress::Full)
        .unwrap();
    let mut one = flate2::Crc::new();
    one.update(&chunk);

    let mut out = vec![0x1f, 0x8b, 8, 0, 0, 0, 0, 0, 0, 255];
    let mut crc = flate2::Crc::new();
    for _ in 0..n {
        out.extend_from_slice(&block);
        crc.combine(&one);
    }
    out.extend_from_slice(&[3, 0]);
    out.extend_from_slice(&crc.sum().to_le_bytes());
    out.extend_from_slice(&crc.amount().to_le_bytes());
    out
}

#[test]
fn gzip_decompression_bomb_is_rejected_during_decompression() {
    // A stream of this make is a good one where it fits the cap.
    let small = gzip_of_zeros(2);
    assert_eq!(
        CompressionEncoding::Gzip
            .decompress_bytes(&small, 2 * 1024 * 1024)
            .unwrap(),
        vec![0u8; 2 * 1024 * 1024]
    );

    let compressed = gzip_of_zeros(4096); // 4 GiB plaintext, only ~MiBs compressed

    let result = CompressionEncoding::Gzip.decompress_bytes(&compressed, 1024);
    assert!(
        result.is_err(),
        "a 4 GiB gzip bomb must be rejected during decompression, never fully materialized"
    );
}

#[test]
fn zstd_decompression_bomb_is_rejected_during_decompression() {
    let mut enc = zstd::stream::Encoder::new(Vec::new(), 0).unwrap();
    let chunk = vec![0u8; 1024 * 1024];
    for _ in 0..4096 {
        enc.write_all(&chunk).unwrap(); // 4 GiB plaintext
    }
    let compressed = enc.finish().unwrap();

    let result = CompressionEncoding::Zstd.decompress_bytes(&compressed, 1024);
    assert!(
        result.is_err(),
        "a 4 GiB zstd bomb must be rejected during decompression, never fully materialized"
    );
}

#[test]
fn decompression_within_limit_still_succeeds() {
    let source = b"a small, well within any reasonable limit payload".to_vec();
    let compressed = CompressionEncoding::Gzip.compress_bytes(&source).unwrap();
    let result = CompressionEncoding::Gzip.decompress_bytes(&compressed, source.len() + 16);
    assert_eq!(result.unwrap(), source);
}

#[test]
fn gzip_decompression_exact_boundary() {
    let source = vec![7u8; 5000];
    let compressed = CompressionEncoding::Gzip.compress_bytes(&source).unwrap();
    assert_eq!(
        CompressionEncoding::Gzip
            .decompress_bytes(&compressed, source.len())
            .unwrap(),
        source,
        "a cap of exactly the decompressed size must succeed"
    );
    assert!(
        CompressionEncoding::Gzip
            .decompress_bytes(&compressed, source.len() - 1)
            .is_err(),
        "a cap one byte below the decompressed size must fail"
    );
}

#[test]
fn zstd_decompression_exact_boundary() {
    let source = vec![9u8; 5000];
    let compressed = CompressionEncoding::Zstd.compress_bytes(&source).unwrap();
    assert_eq!(
        CompressionEncoding::Zstd
            .decompress_bytes(&compressed, source.len())
            .unwrap(),
        source,
        "a cap of exactly the decompressed size must succeed"
    );
    assert!(
        CompressionEncoding::Zstd
            .decompress_bytes(&compressed, source.len() - 1)
            .is_err(),
        "a cap one byte below the decompressed size must fail"
    );
}

fn zstd_with_window(payload: &[u8], window_log: u32) -> Vec<u8> {
    let mut enc = zstd::stream::write::Encoder::new(Vec::new(), 0).unwrap();
    enc.set_parameter(zstd::zstd_safe::CParameter::WindowLog(window_log))
        .unwrap();
    enc.write_all(payload).unwrap();
    enc.finish().unwrap()
}

#[test]
fn zstd_window_cap_tracks_output_cap() {
    // A tiny payload, but forced to declare a large (2 MiB) window.
    let payload = vec![3u8; 256];
    let big_window = zstd_with_window(&payload, 21);

    let err = CompressionEncoding::Zstd
        .decompress_bytes(&big_window, 100_000)
        .expect_err("a frame declaring a window larger than the cap allows must be rejected");
    assert!(
        !matches!(err, DecompressError::SizeExceeded(_)),
        "rejection must come from the window-log ceiling, before any output is produced"
    );

    let right_sized = CompressionEncoding::Zstd.compress_bytes(&payload).unwrap();
    assert_eq!(
        CompressionEncoding::Zstd
            .decompress_bytes(&right_sized, 100_000)
            .unwrap(),
        payload,
        "a frame whose declared window fits the cap must still decode"
    );
}

#[test]
fn zstd_foreign_default_window_within_cap_decodes() {
    // Tiny payload, but declaring zstd's common default window (21 == 2 MiB).
    let payload = vec![5u8; 256];
    let foreign = zstd_with_window(&payload, 21);

    let cap = 600_000usize;
    assert_eq!(
        window_log_for(cap),
        20,
        "test premise: cap must sit where the base window-log is below 21"
    );
    assert_eq!(
        (window_log_for(cap) + 3).min(27),
        23,
        "test premise: headroom must lift the ceiling to at least 21"
    );
    let out = CompressionEncoding::Zstd
        .decompress_bytes(&foreign, cap)
        .expect(
            "a foreign frame declaring the default window (21), within the output cap, \
             must decode under the decoder window headroom",
        );
    assert_eq!(out, payload, "the foreign-window payload must round-trip");
}

#[test]
fn windows_are_bit_lengths_within_bounds() {
    assert_eq!(window_log_for(0), 10);
    assert_eq!(window_log_for(1), 10);
    assert_eq!(window_log_for(1023), 10);
    assert_eq!(window_log_for(1024), 11);
    assert_eq!(window_log_for(4096), 13);
    assert_eq!(window_log_for(134_217_727), 27);
    assert_eq!(window_log_for(134_217_728), 27);
    assert_eq!(window_log_for(usize::MAX), 27);
}

#[test]
fn both_codecs_round_trip_and_shrink() {
    for encoding in [CompressionEncoding::Gzip, CompressionEncoding::Zstd] {
        for source in [Vec::new(), vec![1u8], b"abc".to_vec(), vec![b'a'; 100_000]] {
            let z = encoding.compress_bytes(&source).unwrap();
            assert_ne!(z, source);
            assert_eq!(encoding.decompress_bytes(&z, source.len()).unwrap(), source);
            assert_eq!(encoding.decompress_bytes(&z, usize::MAX).unwrap(), source);
            if source.len() > 1000 {
                assert!(z.len() < source.len() / 10);
            }
        }
    }
}

#[test]
fn identity_keeps_bytes_under_every_cap() {
    let source = b"as it is".to_vec();
    let identity = CompressionEncoding::Identity;
    assert_eq!(identity.compress_bytes(&source).unwrap(), source);
    assert_eq!(identity.decompress_bytes(&source, 0).unwrap(), source);
    assert_eq!(identity.wire_name(), None);
    assert_eq!(CompressionEncoding::Gzip.wire_name(), Some("gzip"));
    assert_eq!(CompressionEncoding::Zstd.wire_name(), Some("zstd"));
}

#[test]
fn an_exceeded_cap_exhausts_a_resource() {
    let z = CompressionEncoding::Gzip.compress_bytes(&[0u8; 20]).unwrap();
    let err = CompressionEncoding::Gzip.decompress_bytes(&z, 19).unwrap_err();
    let status = decompress_error_to_status(&err);
    assert_eq!(status.code(), Code::ResourceExhausted);
    assert_eq!(
        status.message(),
        "decompressed gzip message exceeds max_decompressed_size of 19 bytes"
    );
}

#[test]
fn a_corrupt_stream_is_an_internal_error() {
    for encoding in [CompressionEncoding::Gzip, CompressionEncoding::Zstd] {
        let err = encoding
            .decompress_bytes(b"this is no compressed stream", 1000)
            .unwrap_err();
        assert!(matches!(err, DecompressError::Codec(_)));
        let status = decompress_error_to_status(&err);
        assert_eq!(status.code(), Code::Internal);
        assert!(status.message().starts_with("failed to decompress gRPC message: "));
    }
    let err = DecompressError::Codec("corrupt".to_string());
    assert_eq!(
        decompress_error_to_status(&err).message(),
        "failed to decompress gRPC message: corrupt"
    );
}

#[test]
fn reads_are_judged_by_the_cap() {
    assert_eq!(read_bounded(Ok(vec![1, 2]), 2, "gzip").unwrap(), vec![1, 2]);
    assert!(matches!(
        read_bounded(Ok(vec![1, 2, 3]), 2, "gzip"),
        Err(DecompressError::SizeExceeded(e)) if e.codec == "gzip" && e.max == 2
    ));
    assert!(matches!(
        read_bounded(Err("broken".to_string()), 2, "gzip"),
        Err(DecompressError::Codec(text)) if text == "broken"
    ));
}

#[test]
fn a_message_past_the_cap_fails_for_its_size() {
    for encoding in [CompressionEncoding::Gzip, CompressionEncoding::Zstd] {
        let compressed = encoding.compress_bytes(&[0u8; 4000]).unwrap();
        let err = encoding.decompress_bytes(&compressed, 2500).unwrap_err();
        assert!(matches!(&err, DecompressError::SizeExceeded(e) if e.max == 2500));
        assert_eq!(decompress_error_to_status(&err).code(), Code::ResourceExhausted);
    }

    // A cap that is smaller by far rules out the window of a zstd frame first.
    let compressed = CompressionEncoding::Zstd.compress_bytes(&[0u8; 100_000]).unwrap();
    let err = CompressionEncoding::Zstd.decompress_bytes(&compressed, 10).unwrap_err();
    assert!(matches!(err, DecompressError::Codec(_)));
}
