use armature_grpc::error::GrpcError;
use armature_grpc::status::{Code, Status};
use tonic::metadata::MetadataMap;

fn transport_error() -> GrpcError {
    let error = tonic::transport::Endpoint::from_shared("no uri").unwrap_err();
    armature_grpc::error::transport_result::<()>(Err(error)).unwrap_err()
}

#[test]
fn every_error_has_a_status_and_a_text() {
    let text = || "why".to_string();
    let cases = [
        (transport_error(), Code::Unavailable, "invalid URI", "Transport error: invalid URI"),
        (GrpcError::Connection(text()), Code::Unavailable, "why", "Connection error: why"),
        (GrpcError::Config(text()), Code::InvalidArgument, "why", "Configuration error: why"),
        (GrpcError::Timeout, Code::DeadlineExceeded, "Request timed out", "Request timed out"),
        (GrpcError::Auth(text()), Code::Unauthenticated, "why", "Authentication failed: why"),
        (GrpcError::Interceptor(text()), Code::Internal, "why", "Interceptor error: why"),
        (GrpcError::Server(text()), Code::Internal, "why", "Server error: why"),
        (
            GrpcError::from_code(Code::NotFound, "gone"),
            Code::NotFound,
            "gone",
            "gRPC status: code: 'Some requested entity was not found', message: \"gone\"",
        ),
    ];
    for (error, code, message, written) in cases {
        let status = error.to_status();
        assert_eq!(status.code(), code);
        assert_eq!(status.message(), message);
        assert_eq!(error.message(), written);
        let status: Status = error.into();
        assert_eq!(status.code(), code);
        assert_eq!(status.message(), message);
    }
    assert_eq!(GrpcError::Timeout.message_with("!"), "Request timed out!");
}

#[test]
fn a_status_keeps_its_details_and_metadata() {
    let mut metadata = MetadataMap::new();
    metadata.insert("k", "v".parse().unwrap());
    let status = Status {
        code: Code::Aborted,
        message: "m".to_string(),
        details: vec![1, 2],
        metadata,
        source: Some("Cause".to_string()),
    };
    assert_eq!(
        status.display(),
        "code: 'The operation was aborted', message: \"m\", source: Cause"
    );
    let copy = GrpcError::Status(status).to_status();
    assert_eq!(copy.code(), Code::Aborted);
    assert_eq!(copy.details, vec![1, 2]);
    assert_eq!(copy.metadata.get("k").unwrap(), "v");
    assert_eq!(copy.source.as_deref(), Some("Cause"));
    assert_eq!(
        GrpcError::from(copy).message(),
        "gRPC status: code: 'The operation was aborted', message: \"m\", source: Cause"
    );

    let plain = Status::new(Code::Success, String::new());
    assert!(plain.details.is_empty() && plain.metadata.is_empty());
    assert_eq!(plain.display(), "code: 'The operation completed successfully'");
}

#[test]
fn results_of_the_transport_are_passed_on() {
    assert_eq!(armature_grpc::error::transport_result(Ok(5)).unwrap(), 5);
    assert!(matches!(transport_error(), GrpcError::Transport(e) if e.to_string() == "invalid URI"));
}

#[test]
fn a_status_is_written_as_tonic_writes_it() {
    let mut theirs = tonic::Status::new(tonic::Code::NotFound, "gone");
    theirs.set_source(std::sync::Arc::new(std::fmt::Error));
    let ours = Status {
        source: Some(format!("{:?}", std::fmt::Error)),
        ..Status::new(Code::NotFound, "gone".to_string())
    };
    assert_eq!(ours.display(), theirs.to_string());
}

#[test]
fn codes_are_numbered() {
    for n in 0..=16 {
        assert_eq!(Code::from_number(n).number(), n);
        let tonic_code = tonic::Code::from_i32(n);
        if n > 0 {
            assert_eq!(format!("{:?}", Code::from_number(n)), format!("{tonic_code:?}"));
        }
    }
    assert_eq!(Code::from_number(0), Code::Success);
    assert_eq!(Code::from_number(17), Code::Unknown);
    assert_eq!(Code::from_number(-1), Code::Unknown);
}
