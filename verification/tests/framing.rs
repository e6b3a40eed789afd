use armature_grpc::frame::{read_frame_header, reframe};
use armature_grpc::text::{push_decimal, to_lower_hex};

#[test]
fn headers_are_read() {
    assert_eq!(read_frame_header(&[]), None);
    assert_eq!(read_frame_header(&[1, 0, 0, 0]), None);
    assert_eq!(read_frame_header(&[1, 0, 0, 0, 0]), Some((1, 0)));
    assert_eq!(read_frame_header(&[0, 1, 2, 3, 4, 9]), Some((0, 0x01020304)));
    assert_eq!(read_frame_header(&[7, 255, 255, 255, 255]), Some((7, 4294967295)));
}

#[test]
fn frames_are_written_and_read_back() {
    let frame = reframe(1, b"payload").unwrap();
    assert_eq!(&frame[..], b"\x01\x00\x00\x00\x07payload");
    assert_eq!(read_frame_header(&frame), Some((1, 7)));
    assert_eq!(&reframe(0, b"").unwrap()[..], &[0, 0, 0, 0, 0]);
    let long = reframe(0, &vec![5u8; 70_000]).unwrap();
    assert_eq!(read_frame_header(&long), Some((0, 70_000)));
    assert_eq!(long.len(), 70_005);
}

#[test]
fn numerals() {
    let mut text = String::from("n=");
    push_decimal(&mut text, 0);
    push_decimal(&mut text, 1234567890);
    assert_eq!(text, "n=01234567890");
    assert_eq!(to_lower_hex(0), "0");
    assert_eq!(to_lower_hex(0xdead_beef), "deadbeef");
    assert_eq!(to_lower_hex(u128::MAX), "f".repeat(32));
}
