use armature_grpc::headers::HeadersFull;
use armature_grpc::interceptor::{
    constant_time_eq, AuthInterceptor, AuthValidator, LoggingInterceptor, MetricsInterceptor,
    NoValidator, RequestIdInterceptor,
};
use armature_grpc::status::{Code, Status};
use std::cell::RefCell;
use std::time::{Duration, SystemTime, UNIX_EPOCH};
use tonic::metadata::{MetadataMap, MetadataValue};

fn with(key: &'static str, value: &str) -> MetadataMap {
    let mut metadata = MetadataMap::new();
    metadata.insert(key, value.parse().unwrap());
    metadata
}

/// The code and the message of a refusal.
fn refusal(result: Result<(), Status>) -> (Code, String) {
    let status = result.unwrap_err();
    (status.code(), status.message().to_string())
}

#[test]
fn server_side_auth_interceptor_rejects_and_accepts() {
    let auth = AuthInterceptor::bearer("s3cr3t");

    // No credentials: rejected.
    let err = auth.validate(&MetadataMap::new()).unwrap_err();
    assert_eq!(err.code(), Code::Unauthenticated);

    // Correct credentials: accepted.
    let resp = auth.validate(&with("authorization", "Bearer s3cr3t"));
    assert!(
        resp.is_ok(),
        "authenticated request should succeed: {resp:?}"
    );
}

#[test]
fn bearer_tokens_are_told_apart() {
    let auth = AuthInterceptor::bearer("s3cr3t".to_string()).clone();
    let missing = (Code::Unauthenticated, "Missing bearer token".to_string());
    let invalid = (Code::Unauthenticated, "Invalid token".to_string());
    assert_eq!(refusal(auth.validate(&MetadataMap::new())), missing);
    assert_eq!(refusal(auth.validate(&with("authorization", "Basic s3cr3t"))), missing);
    assert_eq!(refusal(auth.validate(&with("authorization", "bearer s3cr3t"))), missing);
    assert_eq!(refusal(auth.validate(&with("authorization", "Bearer"))), missing);
    assert_eq!(refusal(auth.validate(&with("authorization", "Bearer "))), invalid);
    assert_eq!(refusal(auth.validate(&with("authorization", "Bearer other!"))), invalid);
    assert_eq!(refusal(auth.validate(&with("authorization", "Bearer s3cr3t "))), invalid);

    // A value that is no plain text counts as missing.
    let mut odd = MetadataMap::new();
    odd.insert("authorization", MetadataValue::try_from(&b"Bearer s3cr3t\xc3"[..]).unwrap());
    assert_eq!(refusal(auth.validate(&odd)), missing);
}

#[test]
fn api_keys_are_told_apart() {
    let auth = AuthInterceptor::api_key("X-Api-Key", "k");
    let missing = (Code::Unauthenticated, "Missing API key".to_string());
    let invalid = (Code::Unauthenticated, "Invalid API key".to_string());
    assert_eq!(refusal(auth.validate(&MetadataMap::new())), missing);
    assert_eq!(refusal(auth.validate(&with("x-api-key", "l"))), invalid);
    assert!(auth.validate(&with("x-api-key", "k")).is_ok());

    // A key of binary metadata is never found, and a long one is.
    let binary = AuthInterceptor::api_key("key-bin", "k");
    assert_eq!(refusal(binary.validate(&MetadataMap::new())), missing);
    let long = "a".repeat(100);
    let auth = AuthInterceptor::api_key(long.clone(), "k");
    let mut metadata = MetadataMap::new();
    auth.add_auth(&mut metadata).unwrap();
    assert_eq!(metadata.get(long.as_str()).unwrap(), "k");
    assert!(auth.validate(&metadata).is_ok());
}

#[test]
fn added_credentials_are_accepted() {
    let mut metadata = with("authorization", "something else");
    AuthInterceptor::bearer("tok en").add_auth(&mut metadata).unwrap();
    assert_eq!(metadata.get("authorization").unwrap(), "Bearer tok en");
    assert_eq!(metadata.get_all("authorization").iter().count(), 1);
    assert!(AuthInterceptor::bearer("tok en").validate(&metadata).is_ok());
    assert!(AuthInterceptor::bearer("token").validate(&metadata).is_err());

    let auth = AuthInterceptor::api_key("X-Key", "v");
    auth.add_auth(&mut metadata).unwrap();
    assert_eq!(metadata.get("x-key").unwrap(), "v");
    assert!(auth.validate(&metadata).is_ok());
    assert_eq!(metadata.len(), 2);
}

#[test]
fn credentials_that_metadata_cannot_carry_are_left_out() {
    let mut metadata = MetadataMap::new();
    AuthInterceptor::bearer("line\nbreak").add_auth(&mut metadata).unwrap();
    AuthInterceptor::api_key("no name", "v").add_auth(&mut metadata).unwrap();
    AuthInterceptor::api_key("", "v").add_auth(&mut metadata).unwrap();
    AuthInterceptor::api_key("name-BIN", "v").add_auth(&mut metadata).unwrap();
    AuthInterceptor::api_key("name", "\u{7f}").add_auth(&mut metadata).unwrap();
    assert!(metadata.is_empty());

    // Text beyond ASCII is carried, but counts as missing when it comes back.
    AuthInterceptor::bearer("é").add_auth(&mut metadata).unwrap();
    assert_eq!(metadata.len(), 1);
    assert_eq!(
        refusal(AuthInterceptor::bearer("é").validate(&metadata)).1,
        "Missing bearer token"
    );
}

#[test]
fn custom_validators_decide() {
    let auth = AuthInterceptor::custom(|metadata: &MetadataMap| {
        if metadata.contains_key("x-user") {
            Ok(())
        } else {
            Err(Status::new(Code::PermissionDenied, "who".to_string()))
        }
    });
    let mut metadata = MetadataMap::new();
    auth.add_auth(&mut metadata).unwrap();
    assert!(metadata.is_empty());
    assert_eq!(refusal(auth.validate(&metadata)), (Code::PermissionDenied, "who".to_string()));
    assert!(auth.clone().validate(&with("x-user", "u")).is_ok());
    assert_eq!(refusal(NoValidator.check(&metadata)).0, Code::Unauthenticated);
}

#[test]
fn byte_strings_are_compared_whole() {
    assert!(constant_time_eq(b"", b""));
    assert!(constant_time_eq(b"abc", b"abc"));
    assert!(!constant_time_eq(b"abc", b"abd"));
    assert!(!constant_time_eq(b"xbc", b"abc"));
    assert!(!constant_time_eq(b"abc", b"ab"));
    assert!(!constant_time_eq(&[0x80], &[0x00]));
}

#[test]
fn logging_is_configured() {
    assert!(!LoggingInterceptor::new().log_metadata);
    assert!(!LoggingInterceptor::default().log_metadata);
    assert!(LoggingInterceptor::new().with_metadata().log_metadata);
}

#[test]
fn metrics_are_recorded() {
    let seen = RefCell::new(Vec::new());
    let metrics = MetricsInterceptor::new(|method: &str, ms: u64, ok: bool| {
        seen.borrow_mut().push((method.to_string(), ms, ok));
    });
    metrics.record("/pkg.Service/Method", 12, true);
    metrics.record("/pkg.Service/Other", 0, false);
    assert_eq!(
        *seen.borrow(),
        [
            ("/pkg.Service/Method".to_string(), 12, true),
            ("/pkg.Service/Other".to_string(), 0, false)
        ]
    );
}

#[test]
fn request_ids_are_extracted() {
    let ids = RequestIdInterceptor::new();
    assert_eq!(ids.extract_request_id(&MetadataMap::new()), None);
    assert_eq!(
        ids.extract_request_id(&with("x-request-id", "abc 123")),
        Some("abc 123".to_string())
    );
    let mut odd = MetadataMap::new();
    odd.insert("x-request-id", MetadataValue::try_from(&b"\xff"[..]).unwrap());
    assert_eq!(ids.extract_request_id(&odd), None);

    let own = RequestIdInterceptor::with_header("X-Trace");
    assert_eq!(own.extract_request_id(&with("x-trace", "t")), Some("t".to_string()));
    assert_eq!(RequestIdInterceptor::default().header_name, "x-request-id");
}

#[test]
fn request_ids_are_hexadecimal_nanoseconds() {
    assert_eq!(
        RequestIdInterceptor::request_id_at(Some(Duration::new(1, 255))),
        "3b9acaff"
    );
    assert_eq!(RequestIdInterceptor::request_id_at(None), "0");
    assert_ne!(
        RequestIdInterceptor::request_id_at(Some(Duration::from_nanos(16))),
        RequestIdInterceptor::request_id_at(Some(Duration::from_nanos(1)))
    );

    let before = SystemTime::now().duration_since(UNIX_EPOCH).unwrap().as_nanos();
    let id = RequestIdInterceptor::generate_request_id();
    let after = SystemTime::now().duration_since(UNIX_EPOCH).unwrap().as_nanos();
    let nanos = u128::from_str_radix(&id, 16).unwrap();
    assert!(before <= nanos && nanos <= after);
}

#[test]
fn request_ids_are_propagated() {
    let ids = RequestIdInterceptor::new();
    let mut metadata = with("x-request-id", "kept");
    metadata.append("x-request-id", "dropped".parse().unwrap());
    ids.propagate(&mut metadata).unwrap();
    let values: Vec<_> = metadata.get_all("x-request-id").iter().collect();
    assert_eq!(values, ["kept"]);

    let mut metadata = MetadataMap::new();
    ids.propagate(&mut metadata).unwrap();
    let made = ids.extract_request_id(&metadata).unwrap();
    ids.propagate(&mut metadata).unwrap();
    assert_eq!(ids.extract_request_id(&metadata), Some(made));

    ids.attach(&mut metadata, "set").unwrap();
    assert_eq!(ids.extract_request_id(&metadata).as_deref(), Some("set"));
    ids.attach(&mut metadata, "no\nvalue").unwrap();
    assert_eq!(ids.extract_request_id(&metadata).as_deref(), Some("set"));

    let mut metadata = MetadataMap::new();
    RequestIdInterceptor::with_header("no name").propagate(&mut metadata).unwrap();
    assert!(metadata.is_empty());
}

/// Metadata with as many names as it can hold but `spare`.
fn metadata_with_room_for(spare: usize) -> MetadataMap {
    let mut headers = http::HeaderMap::new();
    for i in 0..24576 - spare {
        let name = http::HeaderName::from_bytes(format!("n{i}").as_bytes()).unwrap();
        headers.insert(name, http::HeaderValue::from_static("v"));
    }
    MetadataMap::from_headers(headers)
}

#[test]
fn credentials_and_ids_need_room() {
    let auth = AuthInterceptor::bearer("t");
    let ids = RequestIdInterceptor::new();
    let mut metadata = metadata_with_room_for(2);
    assert_eq!(auth.add_auth(&mut metadata), Ok(()));
    assert!(auth.validate(&metadata).is_ok());
    assert_eq!(ids.attach(&mut metadata, "id"), Ok(()));
    assert_eq!(ids.extract_request_id(&metadata).as_deref(), Some("id"));
    assert_eq!(metadata.keys_len(), 24576);

    let mut metadata = metadata_with_room_for(0);
    assert_eq!(auth.add_auth(&mut metadata), Err(HeadersFull));
    assert_eq!(ids.attach(&mut metadata, "id"), Err(HeadersFull));
    assert_eq!(ids.propagate(&mut metadata), Err(HeadersFull));
    assert_eq!(metadata.keys_len(), 24576);
    assert!(metadata.get("authorization").is_none());

    // Where there is nothing to insert, no room is needed.
    assert_eq!(AuthInterceptor::bearer("line\nbreak").add_auth(&mut metadata), Ok(()));
    assert_eq!(AuthInterceptor::api_key("no name", "v").add_auth(&mut metadata), Ok(()));
    assert_eq!(AuthInterceptor::custom(|_| Ok(())).add_auth(&mut metadata), Ok(()));
    assert_eq!(ids.attach(&mut metadata, "no\nvalue"), Ok(()));
    assert_eq!(RequestIdInterceptor::with_header("no name").propagate(&mut metadata), Ok(()));
    assert_eq!(metadata.keys_len(), 24576);
}
