use armature_grpc::client::{endpoint_for, endpoints_for};
use armature_grpc::config::{
    GrpcClientConfig, GrpcClientTlsConfig, GrpcServerConfig, GrpcServerTlsConfig, SocketAddr,
};
use armature_grpc::error::GrpcError;
use armature_grpc::server::{GrpcServer, GrpcServerBuilder};
use std::time::Duration;

fn config() -> GrpcClientConfig {
    GrpcClientConfig::builder()
        .timeout(Duration::from_secs(1))
        .connect_timeout(Duration::from_secs(2))
        .concurrency_limit(3)
        .rate_limit(4)
        .build()
}

#[test]
fn endpoints_are_made_from_urls() {
    let endpoint = endpoint_for("http://example.com:1/".to_string(), &config()).unwrap();
    assert_eq!(endpoint.uri().to_string(), "http://example.com:1/");
    assert_eq!(endpoint.get_connect_timeout(), Some(Duration::from_secs(2)));
    assert_eq!(endpoint.get_tcp_keepalive(), Some(Duration::from_secs(60)));
    assert!(endpoint.get_tcp_nodelay());
    let mut other = config();
    other.tcp_nodelay = false;
    other.tcp_keepalive = None;
    let endpoint = endpoint_for("http://example.com:1/".to_string(), &other).unwrap();
    assert_eq!(endpoint.get_tcp_keepalive(), None);
    assert!(!endpoint.get_tcp_nodelay());
    let result = endpoint_for("no uri".to_string(), &config());
    assert!(matches!(result, Err(GrpcError::Config(msg)) if msg == "invalid URI"));
}

#[test]
fn the_first_malformed_url_decides() {
    let urls = vec!["http://a".to_string(), "http://b".to_string()];
    let endpoints = endpoints_for(urls, &config()).unwrap();
    assert_eq!(endpoints.len(), 2);
    assert_eq!(endpoints[1].uri().to_string(), "http://b/");
    let urls = vec!["http://a".to_string(), "no uri".to_string()];
    assert!(matches!(
        endpoints_for(urls, &config()),
        Err(GrpcError::Config(msg)) if msg == "invalid URI"
    ));
    assert!(endpoints_for(Vec::new(), &config()).unwrap().is_empty());

    // Of a malformed URL and one that TLS cannot be applied to, the first one
    // decides too.
    let mut with_tls = config();
    with_tls.tls = Some(GrpcClientTlsConfig::new().domain_name("no domain"));
    let urls = vec!["https://a".to_string(), "no uri".to_string()];
    assert!(matches!(
        endpoints_for(urls, &with_tls),
        Err(GrpcError::Transport(e)) if e.to_string() == "transport error"
    ));
    let urls = vec!["no uri".to_string(), "https://a".to_string()];
    assert!(matches!(
        endpoints_for(urls, &with_tls),
        Err(GrpcError::Config(msg)) if msg == "invalid URI"
    ));
}

#[test]
fn client_tls_is_applied_or_fails_in_the_transport() {
    let mut with_tls = config();
    with_tls.tls = Some(GrpcClientTlsConfig::new().domain_name("localhost"));
    assert!(endpoint_for("https://localhost:1".to_string(), &with_tls).is_ok());

    with_tls.tls = Some(GrpcClientTlsConfig::new().domain_name("no domain"));
    let result = endpoint_for("https://localhost:1".to_string(), &with_tls);
    assert!(matches!(result, Err(GrpcError::Transport(e)) if e.to_string() == "transport error"));

    with_tls.tls = Some(
        GrpcClientTlsConfig::new().identity(b"no cert".to_vec(), b"no key".to_vec()),
    );
    let result = endpoint_for("https://localhost:1".to_string(), &with_tls);
    assert!(matches!(result, Err(GrpcError::Transport(_))));

    // Without both halves there is no identity to fail on.
    with_tls.tls = Some(GrpcClientTlsConfig {
        client_cert_pem: Some(b"no cert".to_vec()),
        ..GrpcClientTlsConfig::new()
    });
    assert!(endpoint_for("https://localhost:1".to_string(), &with_tls).is_ok());

    with_tls.tls = Some(GrpcClientTlsConfig::new());
    let result = endpoint_for("unix:/tmp/socket".to_string(), &with_tls);
    assert!(matches!(
        result,
        Err(GrpcError::Transport(e)) if e.to_string() == "cannot apply TLS config for unix domain socket"
    ));
}

#[test]
fn servers_are_configured() {
    let mut config = GrpcServerConfig::builder()
        .http2_keepalive(Duration::from_secs(1), Duration::from_secs(2))
        .concurrency_limit(5)
        .build()
        .ok()
        .unwrap();
    config.initial_connection_window_size = Some(70_000);
    config.initial_stream_window_size = Some(80_000);
    assert!(GrpcServerBuilder::new(config).build_transport().is_ok());
    assert!(GrpcServer::with_default_config().build_transport().is_ok());
}

#[test]
fn malformed_server_tls_fails_in_the_transport() {
    let tls = GrpcServerTlsConfig::new(b"no cert".to_vec(), b"no key".to_vec());
    let config = GrpcServerConfig::builder().tls(tls).build().ok().unwrap();
    let result = GrpcServer::builder(config).build_transport();
    assert!(matches!(result, Err(GrpcError::Transport(e)) if e.to_string() == "transport error"));
}

#[test]
fn servers_are_bound() {
    let addr = SocketAddr::V6 { ipv6: 1, port: 2, flowinfo: 0, scope_id: 0 };
    let builder = GrpcServer::bind(Ok(addr)).ok().unwrap();
    assert_eq!(builder.config.bind_address, addr);
    assert_eq!(builder.config.max_recv_message_size, 4194304);
    let result = GrpcServer::bind(Err("bad".to_string()));
    assert!(matches!(
        result,
        Err(GrpcError::Config(msg)) if msg == "invalid bind address: bad"
    ));
}
