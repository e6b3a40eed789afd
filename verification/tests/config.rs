use armature_grpc::config::{
    GrpcClientConfig, GrpcClientTlsConfig, GrpcServerConfig, GrpcServerTlsConfig, SocketAddr,
};
use armature_grpc::error::GrpcError;
use armature_grpc::status::Code;
use std::time::Duration;

/// Parses the dotted form of an IPv4 address and a port, as a caller would.
fn parse(text: &str) -> Result<SocketAddr, String> {
    let error = || "invalid socket address syntax".to_string();
    let (ip, port) = text.split_once(':').ok_or_else(error)?;
    let mut ipv4: u32 = 0;
    let mut parts = 0;
    for part in ip.split('.') {
        let byte: u8 = part.parse().map_err(|_| error())?;
        ipv4 = ipv4 * 256 + byte as u32;
        parts += 1;
    }
    if parts != 4 {
        return Err(error());
    }
    let port: u16 = port.parse().map_err(|_| error())?;
    Ok(SocketAddr::V4 { ipv4, port })
}

fn loopback(port: u16) -> SocketAddr {
    SocketAddr::V4 { ipv4: 0x7f00_0001, port }
}

#[test]
fn test_client_config() {
    let config = GrpcClientConfig::builder()
        .endpoint("http://localhost:50051")
        .timeout(Duration::from_secs(60))
        .build();

    assert_eq!(config.endpoint, "http://localhost:50051");
    assert_eq!(config.timeout, Duration::from_secs(60));
}

#[test]
fn malformed_bind_address_returns_config_error_instead_of_panicking() {
    let result = GrpcServerConfig::builder()
        .bind_address(parse("not an address"))
        .build();
    assert!(matches!(result, Err(GrpcError::Config(_))));
}

#[test]
fn malformed_bind_address_is_told_in_the_error() {
    let result = GrpcServerConfig::builder()
        .bind_address(parse("not an address"))
        .build();
    let Err(error) = result else {
        panic!("a malformed address must not build");
    };
    assert_eq!(
        error.message(),
        "Configuration error: invalid bind address: invalid socket address syntax"
    );
    assert_eq!(error.to_status().code(), Code::InvalidArgument);
}

#[test]
fn valid_bind_address_builds_successfully() {
    let config = GrpcServerConfig::builder()
        .bind_address(parse("127.0.0.1:12345"))
        .build()
        .ok()
        .expect("valid address should build");
    assert_eq!(config.bind_address, loopback(12345));
}

#[test]
fn later_valid_bind_address_clears_earlier_parse_error() {
    let config = GrpcServerConfig::builder()
        .bind_address(parse("not an address"))
        .bind_address(parse("127.0.0.1:1"))
        .build()
        .ok()
        .expect("a later valid address should clear the earlier error");
    assert_eq!(config.bind_address, loopback(1));
}

#[test]
fn bind_socket_addr_clears_earlier_parse_error() {
    let addr = parse("127.0.0.1:2").unwrap();
    let config = GrpcServerConfig::builder()
        .bind_address(parse("not an address"))
        .bind_socket_addr(addr)
        .build()
        .ok()
        .expect("bind_socket_addr should clear the earlier error");
    assert_eq!(config.bind_address, addr);
}

#[test]
fn later_malformed_bind_address_is_reported() {
    let result = GrpcServerConfig::builder()
        .bind_address(parse("127.0.0.1:1"))
        .bind_address(parse("not an address"))
        .build();
    assert!(matches!(result, Err(GrpcError::Config(_))));
}

#[test]
fn default_server_config() {
    let config = GrpcServerConfig::default();
    assert_eq!(config.bind_address, parse("0.0.0.0:50051").unwrap());
    assert_eq!(config.max_recv_message_size, 4194304);
    assert_eq!(config.max_send_message_size, 4194304);
    assert_eq!(config.http2_keepalive_interval, Some(Duration::from_secs(60)));
    assert_eq!(config.http2_keepalive_timeout, Some(Duration::from_secs(20)));
    assert_eq!(config.tcp_keepalive, Some(Duration::from_secs(60)));
    assert!(config.tcp_nodelay);
    assert!(config.enable_health_check);
    assert!(!config.enable_reflection);
    assert_eq!(config.concurrency_limit_per_connection, None);
    assert_eq!(config.initial_connection_window_size, None);
    assert_eq!(config.initial_stream_window_size, None);
    assert!(config.tls.is_none());
    // Decompression does not amplify past the receive limit by default.
    assert_eq!(
        config.max_recv_message_size,
        armature_grpc::compression::DEFAULT_MAX_DECOMPRESSED_SIZE
    );
}

#[test]
fn server_builder_sets_every_field() {
    let config = GrpcServerConfig::builder()
        .max_recv_message_size(8 * 1024 * 1024)
        .max_send_message_size(1)
        .http2_keepalive(Duration::from_secs(1), Duration::from_secs(2))
        .tcp_keepalive(Duration::from_secs(3))
        .tcp_nodelay(false)
        .enable_health_check()
        .enable_reflection()
        .concurrency_limit(7)
        .tls(GrpcServerTlsConfig::new(b"cert".to_vec(), b"key".to_vec()))
        .build()
        .ok()
        .unwrap();
    assert_eq!(config.max_recv_message_size, 8388608);
    assert_eq!(config.max_send_message_size, 1);
    assert_eq!(config.http2_keepalive_interval, Some(Duration::from_secs(1)));
    assert_eq!(config.http2_keepalive_timeout, Some(Duration::from_secs(2)));
    assert_eq!(config.tcp_keepalive, Some(Duration::from_secs(3)));
    assert!(!config.tcp_nodelay);
    assert!(config.enable_health_check);
    assert!(config.enable_reflection);
    assert_eq!(config.concurrency_limit_per_connection, Some(7));
    let copy = config.clone();
    assert_eq!(copy.tls.unwrap().cert_pem, b"cert".to_vec());
}

#[test]
fn default_client_config() {
    let config = GrpcClientConfig::default();
    assert_eq!(config.endpoint, "http://localhost:50051");
    assert_eq!(config.timeout, Duration::from_secs(30));
    assert_eq!(config.connect_timeout, Duration::from_secs(10));
    assert_eq!(config.http2_keepalive_interval, Some(Duration::from_secs(60)));
    assert_eq!(config.http2_keepalive_timeout, Some(Duration::from_secs(20)));
    assert_eq!(config.tcp_keepalive, Some(Duration::from_secs(60)));
    assert!(config.tcp_nodelay);
    assert_eq!(config.concurrency_limit, None);
    assert_eq!(config.rate_limit, None);
    assert!(config.retry_enabled);
    assert_eq!(config.max_retry_attempts, 3);
    assert!(config.tls.is_none());

    let other = GrpcClientConfig::for_endpoint("http://other:1");
    assert_eq!(other.endpoint, "http://other:1");
    assert_eq!(other.timeout, Duration::from_secs(30));
}

#[test]
fn client_builder_sets_every_field() {
    let config = GrpcClientConfig::builder()
        .endpoint("http://example.com")
        .timeout(Duration::from_secs(1))
        .connect_timeout(Duration::from_secs(2))
        .http2_keepalive(Duration::from_secs(3), Duration::from_secs(4))
        .tcp_keepalive(Duration::from_secs(5))
        .tcp_nodelay(false)
        .concurrency_limit(6)
        .rate_limit(7)
        .retry(false)
        .max_retry_attempts(8)
        .tls(GrpcClientTlsConfig::new().domain_name("example.com"))
        .build();
    assert_eq!(config.endpoint, "http://example.com");
    assert_eq!(config.timeout, Duration::from_secs(1));
    assert_eq!(config.connect_timeout, Duration::from_secs(2));
    assert_eq!(config.http2_keepalive_interval, Some(Duration::from_secs(3)));
    assert_eq!(config.http2_keepalive_timeout, Some(Duration::from_secs(4)));
    assert_eq!(config.tcp_keepalive, Some(Duration::from_secs(5)));
    assert!(!config.tcp_nodelay);
    assert_eq!(config.concurrency_limit, Some(6));
    assert_eq!(config.rate_limit, Some(7));
    assert!(!config.retry_enabled);
    assert_eq!(config.max_retry_attempts, 8);
    let copy = config.clone();
    assert_eq!(copy.tls.unwrap().domain_name.as_deref(), Some("example.com"));
}

#[test]
fn retry_policy_follows_the_config() {
    assert!(GrpcClientConfig::builder().retry(false).build().retry_policy().is_none());
    let policy = GrpcClientConfig::builder().max_retry_attempts(5).build().retry_policy().unwrap();
    assert_eq!(policy.max_attempts(), 5);
    assert!(policy.should_retry(Code::Unavailable));
    let policy = GrpcClientConfig::builder().max_retry_attempts(0).build().retry_policy().unwrap();
    assert_eq!(policy.max_attempts(), 1);
}

#[test]
fn server_tls_config() {
    let tls = GrpcServerTlsConfig::new(b"cert-pem".to_vec(), b"key-pem".to_vec())
        .client_ca(b"ca-pem".to_vec())
        .client_auth_optional(true);
    assert!(tls.client_ca_cert_pem.is_some());
    assert!(tls.client_auth_optional);
    assert_eq!(
        tls.debug_text(),
        "GrpcServerTlsConfig { cert_pem: <8 bytes>, key_pem: <7 bytes>, \
         client_ca_cert_pem: true, client_auth_optional: true }"
    );
}

#[test]
fn client_tls_config() {
    let tls = GrpcClientTlsConfig::new()
        .ca_certificate(b"ca-pem".to_vec())
        .domain_name("example.com")
        .identity(b"client-cert".to_vec(), b"client-key".to_vec());
    assert!(tls.ca_cert_pem.is_some());
    assert_eq!(tls.domain_name.as_deref(), Some("example.com"));
    assert!(tls.client_cert_pem.is_some());
    assert!(tls.client_key_pem.is_some());
    assert_eq!(
        tls.debug_text(),
        "GrpcClientTlsConfig { ca_cert_pem: true, domain_name: Some(\"example.com\"), \
         client_cert_pem: true, client_key_pem: true }"
    );
    assert_eq!(
        GrpcClientTlsConfig::default().debug_text(),
        "GrpcClientTlsConfig { ca_cert_pem: false, domain_name: None, \
         client_cert_pem: false, client_key_pem: false }"
    );
    assert_eq!(
        GrpcClientTlsConfig::new().debug_text_with("x"),
        "GrpcClientTlsConfig { ca_cert_pem: false, domain_name: x, \
         client_cert_pem: false, client_key_pem: false }"
    );
}
