//! gRPC configuration types.

use crate::error::GrpcError;
use crate::middleware::{at_least_one, default_retry_codes, RetryMiddleware};
use crate::status::Code;
use crate::text::{clone_text, decimal, opt_bytes, opt_text, push_decimal};
use crate::time::nanos;
use std::time::Duration;
use vstd::prelude::*;

verus! {

/// The address of a socket.
#[derive(Debug, Clone, Copy, PartialEq, Eq, Structural)]
pub enum SocketAddr {
    /// An IPv4 address, most significant byte first, and a port.
    V4 { ipv4: u32, port: u16 },
    /// An IPv6 address, most significant byte first, and a port.
    V6 { ipv6: u128, port: u16, flowinfo: u32, scope_id: u32 },
}

/// TLS configuration for the gRPC server.
pub struct GrpcServerTlsConfig {
    /// PEM-encoded server certificate chain.
    pub cert_pem: Vec<u8>,
    /// PEM-encoded server private key.
    pub key_pem: Vec<u8>,
    /// PEM-encoded CA certificate used to verify client certificates. When
    /// `None`, client certificates are not requested.
    pub client_ca_cert_pem: Option<Vec<u8>>,
    /// Whether client certificates are optional when `client_ca_cert_pem` is
    /// set.
    pub client_auth_optional: bool,
}

/// What a server's TLS configuration holds.
#[verifier::ext_equal]
pub struct ServerTlsView {
    pub cert_pem: Seq<u8>,
    pub key_pem: Seq<u8>,
    pub client_ca_cert_pem: Option<Seq<u8>>,
    pub client_auth_optional: bool,
}

fn clone_bytes(v: &Option<Vec<u8>>) -> (r: Option<Vec<u8>>)
    ensures
        opt_bytes(r) == opt_bytes(*v),
{
    match v {
        Some(b) => Some(b.clone()),
        None => None,
    }
}

impl View for GrpcServerTlsConfig {
    type V = ServerTlsView;

    open spec fn view(&self) -> ServerTlsView {
        ServerTlsView {
            cert_pem: self.cert_pem@,
            key_pem: self.key_pem@,
            client_ca_cert_pem: opt_bytes(self.client_ca_cert_pem),
            client_auth_optional: self.client_auth_optional,
        }
    }
}

impl Clone for GrpcServerTlsConfig {
    fn clone(&self) -> (r: Self)
        ensures
            r@ == self@,
    {
        GrpcServerTlsConfig {
            cert_pem: self.cert_pem.clone(),
            key_pem: self.key_pem.clone(),
            client_ca_cert_pem: clone_bytes(&self.client_ca_cert_pem),
            client_auth_optional: self.client_auth_optional,
        }
    }
}

/// How a truth value is written.
pub open spec fn bool_text(b: bool) -> Seq<char> {
    if b {
        "true"@
    } else {
        "false"@
    }
}

fn push_bool(out: &mut String, b: bool)
    ensures
        final(out)@ == old(out)@ + bool_text(b),
{
    if b {
        out.append("true");
    } else {
        out.append("false");
    }
}

impl GrpcServerTlsConfig {
    /// Create a new server TLS configuration from PEM-encoded certificate and
    /// key.
    pub fn new(cert_pem: impl Into<Vec<u8>>, key_pem: impl Into<Vec<u8>>) -> (r: Self)
        ensures
            call_ensures(Into::<Vec<u8>>::into, (cert_pem,), r.cert_pem),
            call_ensures(Into::<Vec<u8>>::into, (key_pem,), r.key_pem),
            r.client_ca_cert_pem is None,
            !r.client_auth_optional,
    {
        GrpcServerTlsConfig {
            cert_pem: cert_pem.into(),
            key_pem: key_pem.into(),
            client_ca_cert_pem: None,
            client_auth_optional: false,
        }
    }

    /// Require (or accept) client certificates signed by the given CA.
    pub fn client_ca(self, ca_pem: impl Into<Vec<u8>>) -> (r: Self)
        ensures
            r.client_ca_cert_pem is Some,
            call_ensures(Into::<Vec<u8>>::into, (ca_pem,), r.client_ca_cert_pem->0),
            r == (GrpcServerTlsConfig { client_ca_cert_pem: r.client_ca_cert_pem, ..self }),
    {
        let mut config = self;
        config.client_ca_cert_pem = Some(ca_pem.into());
        config
    }

    /// Make client certificates optional (only meaningful with `client_ca`).
    pub fn client_auth_optional(self, optional: bool) -> (r: Self)
        ensures
            r == (GrpcServerTlsConfig { client_auth_optional: optional, ..self }),
    {
        let mut config = self;
        config.client_auth_optional = optional;
        config
    }

    /// How the configuration is written for debugging. Certificates and keys
    /// are told by their length alone.
    pub fn debug_text(&self) -> (r: String)
        ensures
            r@ == "GrpcServerTlsConfig { cert_pem: <"@ + decimal(self.cert_pem@.len())
                + " bytes>, key_pem: <"@ + decimal(self.key_pem@.len())
                + " bytes>, client_ca_cert_pem: "@ + bool_text(self.client_ca_cert_pem is Some)
                + ", client_auth_optional: "@ + bool_text(self.client_auth_optional) + " }"@,
    {
        let mut out = String::new();
        out.append("GrpcServerTlsConfig { cert_pem: <");
        push_decimal(&mut out, self.cert_pem.len());
        out.append(" bytes>, key_pem: <");
        push_decimal(&mut out, self.key_pem.len());
        out.append(" bytes>, client_ca_cert_pem: ");
        push_bool(&mut out, self.client_ca_cert_pem.is_some());
        out.append(", client_auth_optional: ");
        push_bool(&mut out, self.client_auth_optional);
        out.append(" }");
        assert(Seq::<char>::empty() + "GrpcServerTlsConfig { cert_pem: <"@
            =~= "GrpcServerTlsConfig { cert_pem: <"@);
        out
    }
}

/// TLS configuration for the gRPC client.
pub struct GrpcClientTlsConfig {
    /// PEM-encoded CA certificates used to verify the server's certificate.
    pub ca_cert_pem: Option<Vec<u8>>,
    /// Domain name to verify against the server's certificate.
    pub domain_name: Option<String>,
    /// PEM-encoded client certificate, for mutual TLS.
    pub client_cert_pem: Option<Vec<u8>>,
    /// PEM-encoded client private key, for mutual TLS.
    pub client_key_pem: Option<Vec<u8>>,
}

/// What a client's TLS configuration holds.
#[verifier::ext_equal]
pub struct ClientTlsView {
    pub ca_cert_pem: Option<Seq<u8>>,
    pub domain_name: Option<Seq<char>>,
    pub client_cert_pem: Option<Seq<u8>>,
    pub client_key_pem: Option<Seq<u8>>,
}

impl View for GrpcClientTlsConfig {
    type V = ClientTlsView;

    open spec fn view(&self) -> ClientTlsView {
        ClientTlsView {
            ca_cert_pem: opt_bytes(self.ca_cert_pem),
            domain_name: opt_text(self.domain_name),
            client_cert_pem: opt_bytes(self.client_cert_pem),
            client_key_pem: opt_bytes(self.client_key_pem),
        }
    }
}

impl Clone for GrpcClientTlsConfig {
    fn clone(&self) -> (r: Self)
        ensures
            r@ == self@,
    {
        GrpcClientTlsConfig {
            ca_cert_pem: clone_bytes(&self.ca_cert_pem),
            domain_name: clone_text(&self.domain_name),
            client_cert_pem: clone_bytes(&self.client_cert_pem),
            client_key_pem: clone_bytes(&self.client_key_pem),
        }
    }
}

impl Default for GrpcClientTlsConfig {
    fn default() -> (r: Self)
        ensures
            r == (GrpcClientTlsConfig {
                ca_cert_pem: None,
                domain_name: None,
                client_cert_pem: None,
                client_key_pem: None,
            }),
    {
        GrpcClientTlsConfig::new()
    }
}

/// How an optional text is written for debugging.
pub uninterp spec fn text_debug(text: Option<Seq<char>>) -> Seq<char>;

/// The `Debug` text of an optional string: `None`, or `Some` around the string
/// in quotes, with some of its characters escaped.
#[verifier::external_body]
fn debug_option(text: &Option<String>) -> (r: String)
    ensures
        r@ == text_debug(opt_text(*text)),
{
    format!("{text:?}")
}

impl GrpcClientTlsConfig {
    /// Create a new, empty client TLS configuration.
    pub fn new() -> (r: Self)
        ensures
            r == (GrpcClientTlsConfig {
                ca_cert_pem: None,
                domain_name: None,
                client_cert_pem: None,
                client_key_pem: None,
            }),
    {
        GrpcClientTlsConfig {
            ca_cert_pem: None,
            domain_name: None,
            client_cert_pem: None,
            client_key_pem: None,
        }
    }

    /// Verify the server's certificate against this PEM-encoded CA.
    pub fn ca_certificate(self, ca_pem: impl Into<Vec<u8>>) -> (r: Self)
        ensures
            r.ca_cert_pem is Some,
            call_ensures(Into::<Vec<u8>>::into, (ca_pem,), r.ca_cert_pem->0),
            r == (GrpcClientTlsConfig { ca_cert_pem: r.ca_cert_pem, ..self }),
    {
        let mut config = self;
        config.ca_cert_pem = Some(ca_pem.into());
        config
    }

    /// Verify the server's certificate against this domain name.
    pub fn domain_name(self, domain: impl Into<String>) -> (r: Self)
        ensures
            r.domain_name is Some,
            call_ensures(Into::<String>::into, (domain,), r.domain_name->0),
            r == (GrpcClientTlsConfig { domain_name: r.domain_name, ..self }),
    {
        let mut config = self;
        config.domain_name = Some(domain.into());
        config
    }

    /// Present this PEM-encoded client identity for mutual TLS.
    pub fn identity(self, cert_pem: impl Into<Vec<u8>>, key_pem: impl Into<Vec<u8>>) -> (r: Self)
        ensures
            r.client_cert_pem is Some,
            call_ensures(Into::<Vec<u8>>::into, (cert_pem,), r.client_cert_pem->0),
            r.client_key_pem is Some,
            call_ensures(Into::<Vec<u8>>::into, (key_pem,), r.client_key_pem->0),
            r == (GrpcClientTlsConfig {
                client_cert_pem: r.client_cert_pem,
                client_key_pem: r.client_key_pem,
                ..self
            }),
    {
        let mut config = self;
        config.client_cert_pem = Some(cert_pem.into());
        config.client_key_pem = Some(key_pem.into());
        config
    }

    /// How the configuration is written for debugging. Of certificates and keys
    /// it tells only whether they are there.
    pub fn debug_text(&self) -> (r: String)
        ensures
            r@ == "GrpcClientTlsConfig { ca_cert_pem: "@ + bool_text(self.ca_cert_pem is Some)
                + ", domain_name: "@ + text_debug(opt_text(self.domain_name))
                + ", client_cert_pem: "@ + bool_text(self.client_cert_pem is Some)
                + ", client_key_pem: "@ + bool_text(self.client_key_pem is Some) + " }"@,
    {
        let domain = debug_option(&self.domain_name);
        self.debug_text_with(domain.as_str())
    }

    /// How the configuration is written for debugging where its domain name is
    /// written as `domain`.
    pub fn debug_text_with(&self, domain: &str) -> (r: String)
        ensures
            r@ == "GrpcClientTlsConfig { ca_cert_pem: "@ + bool_text(self.ca_cert_pem is Some)
                + ", domain_name: "@ + domain@ + ", client_cert_pem: "@ + bool_text(
                self.client_cert_pem is Some,
            ) + ", client_key_pem: "@ + bool_text(self.client_key_pem is Some) + " }"@,
    {
        let mut out = String::new();
        out.append("GrpcClientTlsConfig { ca_cert_pem: ");
        push_bool(&mut out, self.ca_cert_pem.is_some());
        out.append(", domain_name: ");
        out.append(domain);
        out.append(", client_cert_pem: ");
        push_bool(&mut out, self.client_cert_pem.is_some());
        out.append(", client_key_pem: ");
        push_bool(&mut out, self.client_key_pem.is_some());
        out.append(" }");
        assert(Seq::<char>::empty() + "GrpcClientTlsConfig { ca_cert_pem: "@
            =~= "GrpcClientTlsConfig { ca_cert_pem: "@);
        out
    }
}

/// gRPC server configuration.
pub struct GrpcServerConfig {
    /// Address to bind to.
    pub bind_address: SocketAddr,
    /// Maximum message size for receiving.
    pub max_recv_message_size: usize,
    /// Maximum message size for sending. Nothing enforces it.
    pub max_send_message_size: usize,
    /// HTTP/2 keepalive interval.
    pub http2_keepalive_interval: Option<Duration>,
    /// HTTP/2 keepalive timeout.
    pub http2_keepalive_timeout: Option<Duration>,
    /// TCP keepalive.
    pub tcp_keepalive: Option<Duration>,
    /// TCP nodelay.
    pub tcp_nodelay: bool,
    /// Enable gRPC health checking service.
    pub enable_health_check: bool,
    /// Enable server reflection.
    pub enable_reflection: bool,
    /// Concurrency limit per connection.
    pub concurrency_limit_per_connection: Option<usize>,
    /// Initial connection window size.
    pub initial_connection_window_size: Option<u32>,
    /// Initial stream window size.
    pub initial_stream_window_size: Option<u32>,
    /// TLS configuration. When `None`, the server accepts plaintext connections.
    pub tls: Option<GrpcServerTlsConfig>,
}

/// What a server's optional TLS configuration holds.
pub open spec fn server_tls_of(tls: Option<GrpcServerTlsConfig>) -> Option<ServerTlsView> {
    match tls {
        Some(t) => Some(t@),
        None => None,
    }
}

impl Clone for GrpcServerConfig {
    fn clone(&self) -> (r: Self)
        ensures
            server_tls_of(r.tls) == server_tls_of(self.tls),
            r == (GrpcServerConfig { tls: r.tls, ..*self }),
    {
        GrpcServerConfig {
            bind_address: self.bind_address,
            max_recv_message_size: self.max_recv_message_size,
            max_send_message_size: self.max_send_message_size,
            http2_keepalive_interval: self.http2_keepalive_interval,
            http2_keepalive_timeout: self.http2_keepalive_timeout,
            tcp_keepalive: self.tcp_keepalive,
            tcp_nodelay: self.tcp_nodelay,
            enable_health_check: self.enable_health_check,
            enable_reflection: self.enable_reflection,
            concurrency_limit_per_connection: self.concurrency_limit_per_connection,
            initial_connection_window_size: self.initial_connection_window_size,
            initial_stream_window_size: self.initial_stream_window_size,
            tls: match &self.tls {
                Some(tls) => Some(tls.clone()),
                None => None,
            },
        }
    }
}

/// Whether an optional duration is one of whole seconds.
pub open spec fn lasts(d: Option<Duration>, secs: int) -> bool {
    d matches Some(t) && nanos(t) == secs * 1_000_000_000
}

/// Whether a server configuration is the default one.
pub open spec fn is_default_server(c: GrpcServerConfig) -> bool {
    &&& c.bind_address == (SocketAddr::V4 { ipv4: 0, port: 50051 })
    &&& c.max_recv_message_size == 4 * 1024 * 1024
    &&& c.max_send_message_size == 4 * 1024 * 1024
    &&& lasts(c.http2_keepalive_interval, 60)
    &&& lasts(c.http2_keepalive_timeout, 20)
    &&& lasts(c.tcp_keepalive, 60)
    &&& c.tcp_nodelay
    &&& c.enable_health_check
    &&& !c.enable_reflection
    &&& c.concurrency_limit_per_connection is None
    &&& c.initial_connection_window_size is None
    &&& c.initial_stream_window_size is None
    &&& c.tls is None
}

impl Default for GrpcServerConfig {
    fn default() -> (r: Self)
        ensures
            is_default_server(r),
    {
        GrpcServerConfig {
            bind_address: SocketAddr::V4 { ipv4: 0, port: 50051 },
            max_recv_message_size: 4 * 1024 * 1024,
            max_send_message_size: 4 * 1024 * 1024,
            http2_keepalive_interval: Some(Duration::from_secs(60)),
            http2_keepalive_timeout: Some(Duration::from_secs(20)),
            tcp_keepalive: Some(Duration::from_secs(60)),
            tcp_nodelay: true,
            enable_health_check: true,
            enable_reflection: false,
            concurrency_limit_per_connection: None,
            initial_connection_window_size: None,
            initial_stream_window_size: None,
            tls: None,
        }
    }
}

impl GrpcServerConfig {
    /// Create a new builder.
    pub fn builder() -> (r: GrpcServerConfigBuilder)
        ensures
            is_default_server(r.config),
            r.bind_address_error is None,
    {
        GrpcServerConfigBuilder::default()
    }
}

/// Builder for [`GrpcServerConfig`]. A malformed bind address is reported by
/// [`GrpcServerConfigBuilder::build`].
pub struct GrpcServerConfigBuilder {
    /// The configuration so far.
    pub config: GrpcServerConfig,
    /// What was wrong with the last bind address, if anything was.
    pub bind_address_error: Option<String>,
}

impl Default for GrpcServerConfigBuilder {
    fn default() -> (r: Self)
        ensures
            is_default_server(r.config),
            r.bind_address_error is None,
    {
        GrpcServerConfigBuilder { config: GrpcServerConfig::default(), bind_address_error: None }
    }
}

impl GrpcServerConfigBuilder {
    /// The builder with a bind address: one that was parsed, or what was wrong
    /// with it.
    pub open spec fn with_address(self, addr: Result<SocketAddr, String>) -> Self {
        match addr {
            Ok(a) => GrpcServerConfigBuilder {
                config: GrpcServerConfig { bind_address: a, ..self.config },
                bind_address_error: None,
            },
            Err(e) => GrpcServerConfigBuilder { bind_address_error: Some(e), ..self },
        }
    }

    /// Set the bind address, given the result of parsing it. A malformed one is
    /// not reported before `build`, and a later valid one clears it.
    pub fn bind_address(self, addr: Result<SocketAddr, String>) -> (r: Self)
        ensures
            r == self.with_address(addr),
    {
        let mut builder = self;
        match addr {
            Ok(parsed) => {
                builder.config.bind_address = parsed;
                builder.bind_address_error = None;
            },
            Err(e) => {
                builder.bind_address_error = Some(e);
            },
        }
        builder
    }

    /// Set the bind address. An earlier malformed one is forgotten.
    pub fn bind_socket_addr(self, addr: SocketAddr) -> (r: Self)
        ensures
            r == self.with_address(Ok(addr)),
    {
        self.bind_address(Ok(addr))
    }

    /// Set the maximum receive message size.
    pub fn max_recv_message_size(self, size: usize) -> (r: Self)
        ensures
            r.config == (GrpcServerConfig { max_recv_message_size: size, ..self.config }),
            r.bind_address_error == self.bind_address_error,
    {
        let mut builder = self;
        builder.config.max_recv_message_size = size;
        builder
    }

    /// Set the maximum send message size. Nothing enforces it.
    pub fn max_send_message_size(self, size: usize) -> (r: Self)
        ensures
            r.config == (GrpcServerConfig { max_send_message_size: size, ..self.config }),
            r.bind_address_error == self.bind_address_error,
    {
        let mut builder = self;
        builder.config.max_send_message_size = size;
        builder
    }

    /// Enable HTTP/2 keepalive.
    pub fn http2_keepalive(self, interval: Duration, timeout: Duration) -> (r: Self)
        ensures
            r.config == (GrpcServerConfig { http2_keepalive_interval: Some(interval), http2_keepalive_timeout: Some(timeout), ..self.config }),
            r.bind_address_error == self.bind_address_error,
    {
        let mut builder = self;
        builder.config.http2_keepalive_interval = Some(interval);
        builder.config.http2_keepalive_timeout = Some(timeout);
        builder
    }

    /// Set TCP keepalive.
    pub fn tcp_keepalive(self, duration: Duration) -> (r: Self)
        ensures
            r.config == (GrpcServerConfig { tcp_keepalive: Some(duration), ..self.config }),
            r.bind_address_error == self.bind_address_error,
    {
        let mut builder = self;
        builder.config.tcp_keepalive = Some(duration);
        builder
    }

    /// Enable TCP nodelay.
    pub fn tcp_nodelay(self, enable: bool) -> (r: Self)
        ensures
            r.config == (GrpcServerConfig { tcp_nodelay: enable, ..self.config }),
            r.bind_address_error == self.bind_address_error,
    {
        let mut builder = self;
        builder.config.tcp_nodelay = enable;
        builder
    }

    /// Enable gRPC health checking.
    pub fn enable_health_check(self) -> (r: Self)
        ensures
            r.config == (GrpcServerConfig { enable_health_check: true, ..self.config }),
            r.bind_address_error == self.bind_address_error,
    {
        let mut builder = self;
        builder.config.enable_health_check = true;
        builder
    }

    /// Enable server reflection.
    pub fn enable_reflection(self) -> (r: Self)
        ensures
            r.config == (GrpcServerConfig { enable_reflection: true, ..self.config }),
            r.bind_address_error == self.bind_address_error,
    {
        let mut builder = self;
        builder.config.enable_reflection = true;
        builder
    }

    /// Set concurrency limit per connection.
    pub fn concurrency_limit(self, limit: usize) -> (r: Self)
        ensures
            r.config == (GrpcServerConfig { concurrency_limit_per_connection: Some(limit), ..self.config }),
            r.bind_address_error == self.bind_address_error,
    {
        let mut builder = self;
        builder.config.concurrency_limit_per_connection = Some(limit);
        builder
    }

    /// Configure TLS for the server.
    pub fn tls(self, tls: GrpcServerTlsConfig) -> (r: Self)
        ensures
            r.config == (GrpcServerConfig { tls: Some(tls), ..self.config }),
            r.bind_address_error == self.bind_address_error,
    {
        let mut builder = self;
        builder.config.tls = Some(tls);
        builder
    }

    /// Build the configuration, or report a malformed bind address.
    pub fn build(self) -> (r: Result<GrpcServerConfig, GrpcError>)
        ensures
            match self.bind_address_error {
                None => r == Ok::<GrpcServerConfig, GrpcError>(self.config),
                Some(e) => r matches Err(GrpcError::Config(msg)) && msg@
                    == "invalid bind address: "@ + e@,
            },
    {
        if let Some(err) = self.bind_address_error {
            let mut message = String::new();
            message.append("invalid bind address: ");
            message.append(err.as_str());
            assert(message@ =~= "invalid bind address: "@ + err@);
            return Err(GrpcError::Config(message));
        }
        Ok(self.config)
    }
}

/// The last bind address that was set decides: a valid one is built with,
/// whatever was set before it, and a malformed one is reported, whatever was
/// set before it.
pub proof fn lemma_last_address_decides(
    builder: GrpcServerConfigBuilder,
    before: Result<SocketAddr, String>,
    addr: Result<SocketAddr, String>,
)
    ensures
        match addr {
            Ok(a) => builder.with_address(before).with_address(addr) == (GrpcServerConfigBuilder {
                config: GrpcServerConfig { bind_address: a, ..builder.config },
                bind_address_error: None,
            }),
            Err(e) => builder.with_address(before).with_address(addr).bind_address_error == Some(e),
        },
{
}

/// gRPC client configuration.
pub struct GrpcClientConfig {
    /// Server endpoint URL.
    pub endpoint: String,
    /// Request timeout.
    pub timeout: Duration,
    /// Connect timeout.
    pub connect_timeout: Duration,
    /// HTTP/2 keepalive interval.
    pub http2_keepalive_interval: Option<Duration>,
    /// HTTP/2 keepalive timeout.
    pub http2_keepalive_timeout: Option<Duration>,
    /// TCP keepalive.
    pub tcp_keepalive: Option<Duration>,
    /// TCP nodelay.
    pub tcp_nodelay: bool,
    /// Concurrency limit.
    pub concurrency_limit: Option<usize>,
    /// Rate limit (requests per second).
    pub rate_limit: Option<u64>,
    /// Initial connection window size.
    pub initial_connection_window_size: Option<u32>,
    /// Initial stream window size.
    pub initial_stream_window_size: Option<u32>,
    /// Enable retry.
    pub retry_enabled: bool,
    /// Maximum retry attempts.
    pub max_retry_attempts: u32,
    /// TLS configuration. When `None`, the client connects over plaintext.
    pub tls: Option<GrpcClientTlsConfig>,
}

/// What a client's optional TLS configuration holds.
pub open spec fn client_tls_of(tls: Option<GrpcClientTlsConfig>) -> Option<ClientTlsView> {
    match tls {
        Some(t) => Some(t@),
        None => None,
    }
}

impl Clone for GrpcClientConfig {
    fn clone(&self) -> (r: Self)
        ensures
            r.endpoint@ == self.endpoint@,
            client_tls_of(r.tls) == client_tls_of(self.tls),
            r == (GrpcClientConfig { endpoint: r.endpoint, tls: r.tls, ..*self }),
    {
        GrpcClientConfig {
            endpoint: self.endpoint.clone(),
            timeout: self.timeout,
            connect_timeout: self.connect_timeout,
            http2_keepalive_interval: self.http2_keepalive_interval,
            http2_keepalive_timeout: self.http2_keepalive_timeout,
            tcp_keepalive: self.tcp_keepalive,
            tcp_nodelay: self.tcp_nodelay,
            concurrency_limit: self.concurrency_limit,
            rate_limit: self.rate_limit,
            initial_connection_window_size: self.initial_connection_window_size,
            initial_stream_window_size: self.initial_stream_window_size,
            retry_enabled: self.retry_enabled,
            max_retry_attempts: self.max_retry_attempts,
            tls: match &self.tls {
                Some(tls) => Some(tls.clone()),
                None => None,
            },
        }
    }
}

/// Whether a client configuration is the default one for some endpoint.
pub open spec fn is_default_client(c: GrpcClientConfig, endpoint: Seq<char>) -> bool {
    &&& c.endpoint@ == endpoint
    &&& nanos(c.timeout) == 30_000_000_000
    &&& nanos(c.connect_timeout) == 10_000_000_000
    &&& lasts(c.http2_keepalive_interval, 60)
    &&& lasts(c.http2_keepalive_timeout, 20)
    &&& lasts(c.tcp_keepalive, 60)
    &&& c.tcp_nodelay
    &&& c.concurrency_limit is None
    &&& c.rate_limit is None
    &&& c.initial_connection_window_size is None
    &&& c.initial_stream_window_size is None
    &&& c.retry_enabled
    &&& c.max_retry_attempts == 3
    &&& c.tls is None
}

impl Default for GrpcClientConfig {
    fn default() -> (r: Self)
        ensures
            is_default_client(r, "http://localhost:50051"@),
    {
        GrpcClientConfig {
            endpoint: String::from("http://localhost:50051"),
            timeout: Duration::from_secs(30),
            connect_timeout: Duration::from_secs(10),
            http2_keepalive_interval: Some(Duration::from_secs(60)),
            http2_keepalive_timeout: Some(Duration::from_secs(20)),
            tcp_keepalive: Some(Duration::from_secs(60)),
            tcp_nodelay: true,
            concurrency_limit: None,
            rate_limit: None,
            initial_connection_window_size: None,
            initial_stream_window_size: None,
            retry_enabled: true,
            max_retry_attempts: 3,
            tls: None,
        }
    }
}

impl GrpcClientConfig {
    /// Create a new builder.
    pub fn builder() -> (r: GrpcClientConfigBuilder)
        ensures
            is_default_client(r.config, "http://localhost:50051"@),
    {
        GrpcClientConfigBuilder::default()
    }

    /// The default configuration for an endpoint.
    pub fn for_endpoint(endpoint: impl Into<String>) -> (r: Self)
        ensures
            call_ensures(Into::<String>::into, (endpoint,), r.endpoint),
            is_default_client(r, r.endpoint@),
    {
        let endpoint: String = endpoint.into();
        GrpcClientConfig::builder().endpoint(endpoint).build()
    }

    /// How calls are retried: not at all where retry is not enabled.
    pub fn retry_policy(&self) -> (r: Option<RetryMiddleware>)
        ensures
            r is Some == self.retry_enabled,
            r matches Some(retry) ==> retry.retry_codes@ == default_retry_codes()
                && retry.max_attempts == at_least_one(self.max_retry_attempts as int),
    {
        if !self.retry_enabled {
            return None;
        }
        let max_attempts: u32 = if self.max_retry_attempts == 0 {
            1
        } else {
            self.max_retry_attempts
        };
        Some(RetryMiddleware::new(max_attempts))
    }
}

/// Builder for [`GrpcClientConfig`].
pub struct GrpcClientConfigBuilder {
    /// The configuration so far.
    pub config: GrpcClientConfig,
}

impl Default for GrpcClientConfigBuilder {
    fn default() -> (r: Self)
        ensures
            is_default_client(r.config, "http://localhost:50051"@),
    {
        GrpcClientConfigBuilder { config: GrpcClientConfig::default() }
    }
}

impl GrpcClientConfigBuilder {
    /// Set the endpoint URL.
    pub fn endpoint(self, endpoint: impl Into<String>) -> (r: Self)
        ensures
            call_ensures(Into::<String>::into, (endpoint,), r.config.endpoint),
            r.config == (GrpcClientConfig { endpoint: r.config.endpoint, ..self.config }),
    {
        let mut builder = self;
        builder.config.endpoint = endpoint.into();
        builder
    }

    /// Set the request timeout.
    pub fn timeout(self, timeout: Duration) -> (r: Self)
        ensures
            r.config == (GrpcClientConfig { timeout: timeout, ..self.config }),
    {
        let mut builder = self;
        builder.config.timeout = timeout;
        builder
    }

    /// Set the connect timeout.
    pub fn connect_timeout(self, timeout: Duration) -> (r: Self)
        ensures
            r.config == (GrpcClientConfig { connect_timeout: timeout, ..self.config }),
    {
        let mut builder = self;
        builder.config.connect_timeout = timeout;
        builder
    }

    /// Enable HTTP/2 keepalive.
    pub fn http2_keepalive(self, interval: Duration, timeout: Duration) -> (r: Self)
        ensures
            r.config == (GrpcClientConfig { http2_keepalive_interval: Some(interval), http2_keepalive_timeout: Some(timeout), ..self.config }),
    {
        let mut builder = self;
        builder.config.http2_keepalive_interval = Some(interval);
        builder.config.http2_keepalive_timeout = Some(timeout);
        builder
    }

    /// Set TCP keepalive.
    pub fn tcp_keepalive(self, duration: Duration) -> (r: Self)
        ensures
            r.config == (GrpcClientConfig { tcp_keepalive: Some(duration), ..self.config }),
    {
        let mut builder = self;
        builder.config.tcp_keepalive = Some(duration);
        builder
    }

    /// Enable TCP nodelay.
    pub fn tcp_nodelay(self, enable: bool) -> (r: Self)
        ensures
            r.config == (GrpcClientConfig { tcp_nodelay: enable, ..self.config }),
    {
        let mut builder = self;
        builder.config.tcp_nodelay = enable;
        builder
    }

    /// Set concurrency limit.
    pub fn concurrency_limit(self, limit: usize) -> (r: Self)
        ensures
            r.config == (GrpcClientConfig { concurrency_limit: Some(limit), ..self.config }),
    {
        let mut builder = self;
        builder.config.concurrency_limit = Some(limit);
        builder
    }

    /// Set rate limit (requests per second).
    pub fn rate_limit(self, rps: u64) -> (r: Self)
        ensures
            r.config == (GrpcClientConfig { rate_limit: Some(rps), ..self.config }),
    {
        let mut builder = self;
        builder.config.rate_limit = Some(rps);
        builder
    }

    /// Enable or disable retry.
    pub fn retry(self, enabled: bool) -> (r: Self)
        ensures
            r.config == (GrpcClientConfig { retry_enabled: enabled, ..self.config }),
    {
        let mut builder = self;
        builder.config.retry_enabled = enabled;
        builder
    }

    /// Set maximum retry attempts.
    pub fn max_retry_attempts(self, attempts: u32) -> (r: Self)
        ensures
            r.config == (GrpcClientConfig { max_retry_attempts: attempts, ..self.config }),
    {
        let mut builder = self;
        builder.config.max_retry_attempts = attempts;
        builder
    }

    /// Configure TLS for the client connection.
    pub fn tls(self, tls: GrpcClientTlsConfig) -> (r: Self)
        ensures
            r.config == (GrpcClientConfig { tls: Some(tls), ..self.config }),
    {
        let mut builder = self;
        builder.config.tls = Some(tls);
        builder
    }

    /// Build the configuration.
    pub fn build(self) -> (r: GrpcClientConfig)
        ensures
            r == self.config,
    {
        self.config
    }
}

/// Each setter of a server's builder sets what it is named for to what it was
/// given, and leaves every other setting alone.
pub proof fn lemma_server_setters(
    before: GrpcServerConfigBuilder,
    size: usize,
    interval: Duration,
    timeout: Duration,
    enable: bool,
    tls: GrpcServerTlsConfig,
    addr: SocketAddr,
    by_max_recv_message_size: GrpcServerConfigBuilder,
    by_max_send_message_size: GrpcServerConfigBuilder,
    by_http2_keepalive: GrpcServerConfigBuilder,
    by_tcp_keepalive: GrpcServerConfigBuilder,
    by_tcp_nodelay: GrpcServerConfigBuilder,
    by_enable_health_check: GrpcServerConfigBuilder,
    by_enable_reflection: GrpcServerConfigBuilder,
    by_concurrency_limit: GrpcServerConfigBuilder,
    by_tls: GrpcServerConfigBuilder,
    by_bind_socket_addr: GrpcServerConfigBuilder,
)
    requires
        call_ensures(GrpcServerConfigBuilder::max_recv_message_size, (before, size), by_max_recv_message_size),
        call_ensures(GrpcServerConfigBuilder::max_send_message_size, (before, size), by_max_send_message_size),
        call_ensures(GrpcServerConfigBuilder::http2_keepalive, (before, interval, timeout), by_http2_keepalive),
        call_ensures(GrpcServerConfigBuilder::tcp_keepalive, (before, interval), by_tcp_keepalive),
        call_ensures(GrpcServerConfigBuilder::tcp_nodelay, (before, enable), by_tcp_nodelay),
        call_ensures(GrpcServerConfigBuilder::enable_health_check, (before,), by_enable_health_check),
        call_ensures(GrpcServerConfigBuilder::enable_reflection, (before,), by_enable_reflection),
        call_ensures(GrpcServerConfigBuilder::concurrency_limit, (before, size), by_concurrency_limit),
        call_ensures(GrpcServerConfigBuilder::tls, (before, tls), by_tls),
        call_ensures(GrpcServerConfigBuilder::bind_socket_addr, (before, addr), by_bind_socket_addr),
    ensures
        by_max_recv_message_size.config.bind_address == before.config.bind_address
            && by_max_recv_message_size.config.max_recv_message_size == size
            && by_max_recv_message_size.config.max_send_message_size == before.config.max_send_message_size
            && by_max_recv_message_size.config.http2_keepalive_interval == before.config.http2_keepalive_interval
            && by_max_recv_message_size.config.http2_keepalive_timeout == before.config.http2_keepalive_timeout
            && by_max_recv_message_size.config.tcp_keepalive == before.config.tcp_keepalive
            && by_max_recv_message_size.config.tcp_nodelay == before.config.tcp_nodelay
            && by_max_recv_message_size.config.enable_health_check == before.config.enable_health_check
            && by_max_recv_message_size.config.enable_reflection == before.config.enable_reflection
            && by_max_recv_message_size.config.concurrency_limit_per_connection == before.config.concurrency_limit_per_connection
            && by_max_recv_message_size.config.initial_connection_window_size == before.config.initial_connection_window_size
            && by_max_recv_message_size.config.initial_stream_window_size == before.config.initial_stream_window_size
            && by_max_recv_message_size.config.tls == before.config.tls
            && by_max_recv_message_size.bind_address_error == before.bind_address_error,
        by_max_send_message_size.config.bind_address == before.config.bind_address
            && by_max_send_message_size.config.max_recv_message_size == before.config.max_recv_message_size
            && by_max_send_message_size.config.max_send_message_size == size
            && by_max_send_message_size.config.http2_keepalive_interval == before.config.http2_keepalive_interval
            && by_max_send_message_size.config.http2_keepalive_timeout == before.config.http2_keepalive_timeout
            && by_max_send_message_size.config.tcp_keepalive == before.config.tcp_keepalive
            && by_max_send_message_size.config.tcp_nodelay == before.config.tcp_nodelay
            && by_max_send_message_size.config.enable_health_check == before.config.enable_health_check
            && by_max_send_message_size.config.enable_reflection == before.config.enable_reflection
            && by_max_send_message_size.config.concurrency_limit_per_connection == before.config.concurrency_limit_per_connection
            && by_max_send_message_size.config.initial_connection_window_size == before.config.initial_connection_window_size
            && by_max_send_message_size.config.initial_stream_window_size == before.config.initial_stream_window_size
            && by_max_send_message_size.config.tls == before.config.tls
            && by_max_send_message_size.bind_address_error == before.bind_address_error,
        by_http2_keepalive.config.bind_address == before.config.bind_address
            && by_http2_keepalive.config.max_recv_message_size == before.config.max_recv_message_size
            && by_http2_keepalive.config.max_send_message_size == before.config.max_send_message_size
            && by_http2_keepalive.config.http2_keepalive_interval == Some(interval)
            && by_http2_keepalive.config.http2_keepalive_timeout == Some(timeout)
            && by_http2_keepalive.config.tcp_keepalive == before.config.tcp_keepalive
            && by_http2_keepalive.config.tcp_nodelay == before.config.tcp_nodelay
            && by_http2_keepalive.config.enable_health_check == before.config.enable_health_check
            && by_http2_keepalive.config.enable_reflection == before.config.enable_reflection
            && by_http2_keepalive.config.concurrency_limit_per_connection == before.config.concurrency_limit_per_connection
            && by_http2_keepalive.config.initial_connection_window_size == before.config.initial_connection_window_size
            && by_http2_keepalive.config.initial_stream_window_size == before.config.initial_stream_window_size
            && by_http2_keepalive.config.tls == before.config.tls
            && by_http2_keepalive.bind_address_error == before.bind_address_error,
        by_tcp_keepalive.config.bind_address == before.config.bind_address
            && by_tcp_keepalive.config.max_recv_message_size == before.config.max_recv_message_size
            && by_tcp_keepalive.config.max_send_message_size == before.config.max_send_message_size
            && by_tcp_keepalive.config.http2_keepalive_interval == before.config.http2_keepalive_interval
            && by_tcp_keepalive.config.http2_keepalive_timeout == before.config.http2_keepalive_timeout
            && by_tcp_keepalive.config.tcp_keepalive == Some(interval)
            && by_tcp_keepalive.config.tcp_nodelay == before.config.tcp_nodelay
            && by_tcp_keepalive.config.enable_health_check == before.config.enable_health_check
            && by_tcp_keepalive.config.enable_reflection == before.config.enable_reflection
            && by_tcp_keepalive.config.concurrency_limit_per_connection == before.config.concurrency_limit_per_connection
            && by_tcp_keepalive.config.initial_connection_window_size == before.config.initial_connection_window_size
            && by_tcp_keepalive.config.initial_stream_window_size == before.config.initial_stream_window_size
            && by_tcp_keepalive.config.tls == before.config.tls
            && by_tcp_keepalive.bind_address_error == before.bind_address_error,
        by_tcp_nodelay.config.bind_address == before.config.bind_address
            && by_tcp_nodelay.config.max_recv_message_size == before.config.max_recv_message_size
            && by_tcp_nodelay.config.max_send_message_size == before.config.max_send_message_size
            && by_tcp_nodelay.config.http2_keepalive_interval == before.config.http2_keepalive_interval
            && by_tcp_nodelay.config.http2_keepalive_timeout == before.config.http2_keepalive_timeout
            && by_tcp_nodelay.config.tcp_keepalive == before.config.tcp_keepalive
            && by_tcp_nodelay.config.tcp_nodelay == enable
            && by_tcp_nodelay.config.enable_health_check == before.config.enable_health_check
            && by_tcp_nodelay.config.enable_reflection == before.config.enable_reflection
            && by_tcp_nodelay.config.concurrency_limit_per_connection == before.config.concurrency_limit_per_connection
            && by_tcp_nodelay.config.initial_connection_window_size == before.config.initial_connection_window_size
            && by_tcp_nodelay.config.initial_stream_window_size == before.config.initial_stream_window_size
            && by_tcp_nodelay.config.tls == before.config.tls
            && by_tcp_nodelay.bind_address_error == before.bind_address_error,
        by_enable_health_check.config.bind_address == before.config.bind_address
            && by_enable_health_check.config.max_recv_message_size == before.config.max_recv_message_size
            && by_enable_health_check.config.max_send_message_size == before.config.max_send_message_size
            && by_enable_health_check.config.http2_keepalive_interval == before.config.http2_keepalive_interval
            && by_enable_health_check.config.http2_keepalive_timeout == before.config.http2_keepalive_timeout
            && by_enable_health_check.config.tcp_keepalive == before.config.tcp_keepalive
            && by_enable_health_check.config.tcp_nodelay == before.config.tcp_nodelay
            && by_enable_health_check.config.enable_health_check == true
            && by_enable_health_check.config.enable_reflection == before.config.enable_reflection
            && by_enable_health_check.config.concurrency_limit_per_connection == before.config.concurrency_limit_per_connection
            && by_enable_health_check.config.initial_connection_window_size == before.config.initial_connection_window_size
            && by_enable_health_check.config.initial_stream_window_size == before.config.initial_stream_window_size
            && by_enable_health_check.config.tls == before.config.tls
            && by_enable_health_check.bind_address_error == before.bind_address_error,
        by_enable_reflection.config.bind_address == before.config.bind_address
            && by_enable_reflection.config.max_recv_message_size == before.config.max_recv_message_size
            && by_enable_reflection.config.max_send_message_size == before.config.max_send_message_size
            && by_enable_reflection.config.http2_keepalive_interval == before.config.http2_keepalive_interval
            && by_enable_reflection.config.http2_keepalive_timeout == before.config.http2_keepalive_timeout
            && by_enable_reflection.config.tcp_keepalive == before.config.tcp_keepalive
            && by_enable_reflection.config.tcp_nodelay == before.config.tcp_nodelay
            && by_enable_reflection.config.enable_health_check == before.config.enable_health_check
            && by_enable_reflection.config.enable_reflection == true
            && by_enable_reflection.config.concurrency_limit_per_connection == before.config.concurrency_limit_per_connection
            && by_enable_reflection.config.initial_connection_window_size == before.config.initial_connection_window_size
            && by_enable_reflection.config.initial_stream_window_size == before.config.initial_stream_window_size
            && by_enable_reflection.config.tls == before.config.tls
            && by_enable_reflection.bind_address_error == before.bind_address_error,
        by_concurrency_limit.config.bind_address == before.config.bind_address
            && by_concurrency_limit.config.max_recv_message_size == before.config.max_recv_message_size
            && by_concurrency_limit.config.max_send_message_size == before.config.max_send_message_size
            && by_concurrency_limit.config.http2_keepalive_interval == before.config.http2_keepalive_interval
            && by_concurrency_limit.config.http2_keepalive_timeout == before.config.http2_keepalive_timeout
            && by_concurrency_limit.config.tcp_keepalive == before.config.tcp_keepalive
            && by_concurrency_limit.config.tcp_nodelay == before.config.tcp_nodelay
            && by_concurrency_limit.config.enable_health_check == before.config.enable_health_check
            && by_concurrency_limit.config.enable_reflection == before.config.enable_reflection
            && by_concurrency_limit.config.concurrency_limit_per_connection == Some(size)
            && by_concurrency_limit.config.initial_connection_window_size == before.config.initial_connection_window_size
            && by_concurrency_limit.config.initial_stream_window_size == before.config.initial_stream_window_size
            && by_concurrency_limit.config.tls == before.config.tls
            && by_concurrency_limit.bind_address_error == before.bind_address_error,
        by_tls.config.bind_address == before.config.bind_address
            && by_tls.config.max_recv_message_size == before.config.max_recv_message_size
            && by_tls.config.max_send_message_size == before.config.max_send_message_size
            && by_tls.config.http2_keepalive_interval == before.config.http2_keepalive_interval
            && by_tls.config.http2_keepalive_timeout == before.config.http2_keepalive_timeout
            && by_tls.config.tcp_keepalive == before.config.tcp_keepalive
            && by_tls.config.tcp_nodelay == before.config.tcp_nodelay
            && by_tls.config.enable_health_check == before.config.enable_health_check
            && by_tls.config.enable_reflection == before.config.enable_reflection
            && by_tls.config.concurrency_limit_per_connection == before.config.concurrency_limit_per_connection
            && by_tls.config.initial_connection_window_size == before.config.initial_connection_window_size
            && by_tls.config.initial_stream_window_size == before.config.initial_stream_window_size
            && by_tls.config.tls == Some(tls)
            && by_tls.bind_address_error == before.bind_address_error,
        by_bind_socket_addr.config.bind_address == addr
            && by_bind_socket_addr.config.max_recv_message_size == before.config.max_recv_message_size
            && by_bind_socket_addr.config.max_send_message_size == before.config.max_send_message_size
            && by_bind_socket_addr.config.http2_keepalive_interval == before.config.http2_keepalive_interval
            && by_bind_socket_addr.config.http2_keepalive_timeout == before.config.http2_keepalive_timeout
            && by_bind_socket_addr.config.tcp_keepalive == before.config.tcp_keepalive
            && by_bind_socket_addr.config.tcp_nodelay == before.config.tcp_nodelay
            && by_bind_socket_addr.config.enable_health_check == before.config.enable_health_check
            && by_bind_socket_addr.config.enable_reflection == before.config.enable_reflection
            && by_bind_socket_addr.config.concurrency_limit_per_connection == before.config.concurrency_limit_per_connection
            && by_bind_socket_addr.config.initial_connection_window_size == before.config.initial_connection_window_size
            && by_bind_socket_addr.config.initial_stream_window_size == before.config.initial_stream_window_size
            && by_bind_socket_addr.config.tls == before.config.tls
            && by_bind_socket_addr.bind_address_error is None,
{
}

/// Each setter of a client's builder sets what it is named for to what it was
/// given, and leaves every other setting alone.
pub proof fn lemma_client_setters(
    before: GrpcClientConfigBuilder,
    timeout: Duration,
    interval: Duration,
    enable: bool,
    size: usize,
    rps: u64,
    attempts: u32,
    tls: GrpcClientTlsConfig,
    by_timeout: GrpcClientConfigBuilder,
    by_connect_timeout: GrpcClientConfigBuilder,
    by_http2_keepalive: GrpcClientConfigBuilder,
    by_tcp_keepalive: GrpcClientConfigBuilder,
    by_tcp_nodelay: GrpcClientConfigBuilder,
    by_concurrency_limit: GrpcClientConfigBuilder,
    by_rate_limit: GrpcClientConfigBuilder,
    by_retry: GrpcClientConfigBuilder,
    by_max_retry_attempts: GrpcClientConfigBuilder,
    by_tls: GrpcClientConfigBuilder,
)
    requires
        call_ensures(GrpcClientConfigBuilder::timeout, (before, timeout), by_timeout),
        call_ensures(GrpcClientConfigBuilder::connect_timeout, (before, timeout), by_connect_timeout),
        call_ensures(GrpcClientConfigBuilder::http2_keepalive, (before, interval, timeout), by_http2_keepalive),
        call_ensures(GrpcClientConfigBuilder::tcp_keepalive, (before, interval), by_tcp_keepalive),
        call_ensures(GrpcClientConfigBuilder::tcp_nodelay, (before, enable), by_tcp_nodelay),
        call_ensures(GrpcClientConfigBuilder::concurrency_limit, (before, size), by_concurrency_limit),
        call_ensures(GrpcClientConfigBuilder::rate_limit, (before, rps), by_rate_limit),
        call_ensures(GrpcClientConfigBuilder::retry, (before, enable), by_retry),
        call_ensures(GrpcClientConfigBuilder::max_retry_attempts, (before, attempts), by_max_retry_attempts),
        call_ensures(GrpcClientConfigBuilder::tls, (before, tls), by_tls),
    ensures
        by_timeout.config.endpoint == before.config.endpoint
            && by_timeout.config.timeout == timeout
            && by_timeout.config.connect_timeout == before.config.connect_timeout
            && by_timeout.config.http2_keepalive_interval == before.config.http2_keepalive_interval
            && by_timeout.config.http2_keepalive_timeout == before.config.http2_keepalive_timeout
            && by_timeout.config.tcp_keepalive == before.config.tcp_keepalive
            && by_timeout.config.tcp_nodelay == before.config.tcp_nodelay
            && by_timeout.config.concurrency_limit == before.config.concurrency_limit
            && by_timeout.config.rate_limit == before.config.rate_limit
            && by_timeout.config.initial_connection_window_size == before.config.initial_connection_window_size
            && by_timeout.config.initial_stream_window_size == before.config.initial_stream_window_size
            && by_timeout.config.retry_enabled == before.config.retry_enabled
            && by_timeout.config.max_retry_attempts == before.config.max_retry_attempts
            && by_timeout.config.tls == before.config.tls,
        by_connect_timeout.config.endpoint == before.config.endpoint
            && by_connect_timeout.config.timeout == before.config.timeout
            && by_connect_timeout.config.connect_timeout == timeout
            && by_connect_timeout.config.http2_keepalive_interval == before.config.http2_keepalive_interval
            && by_connect_timeout.config.http2_keepalive_timeout == before.config.http2_keepalive_timeout
            && by_connect_timeout.config.tcp_keepalive == before.config.tcp_keepalive
            && by_connect_timeout.config.tcp_nodelay == before.config.tcp_nodelay
            && by_connect_timeout.config.concurrency_limit == before.config.concurrency_limit
            && by_connect_timeout.config.rate_limit == before.config.rate_limit
            && by_connect_timeout.config.initial_connection_window_size == before.config.initial_connection_window_size
            && by_connect_timeout.config.initial_stream_window_size == before.config.initial_stream_window_size
            && by_connect_timeout.config.retry_enabled == before.config.retry_enabled
            && by_connect_timeout.config.max_retry_attempts == before.config.max_retry_attempts
            && by_connect_timeout.config.tls == before.config.tls,
        by_http2_keepalive.config.endpoint == before.config.endpoint
            && by_http2_keepalive.config.timeout == before.config.timeout
            && by_http2_keepalive.config.connect_timeout == before.config.connect_timeout
            && by_http2_keepalive.config.http2_keepalive_interval == Some(interval)
            && by_http2_keepalive.config.http2_keepalive_timeout == Some(timeout)
            && by_http2_keepalive.config.tcp_keepalive == before.config.tcp_keepalive
            && by_http2_keepalive.config.tcp_nodelay == before.config.tcp_nodelay
            && by_http2_keepalive.config.concurrency_limit == before.config.concurrency_limit
            && by_http2_keepalive.config.rate_limit == before.config.rate_limit
            && by_http2_keepalive.config.initial_connection_window_size == before.config.initial_connection_window_size
            && by_http2_keepalive.config.initial_stream_window_size == before.config.initial_stream_window_size
            && by_http2_keepalive.config.retry_enabled == before.config.retry_enabled
            && by_http2_keepalive.config.max_retry_attempts == before.config.max_retry_attempts
            && by_http2_keepalive.config.tls == before.config.tls,
        by_tcp_keepalive.config.endpoint == before.config.endpoint
            && by_tcp_keepalive.config.timeout == before.config.timeout
            && by_tcp_keepalive.config.connect_timeout == before.config.connect_timeout
            && by_tcp_keepalive.config.http2_keepalive_interval == before.config.http2_keepalive_interval
            && by_tcp_keepalive.config.http2_keepalive_timeout == before.config.http2_keepalive_timeout
            && by_tcp_keepalive.config.tcp_keepalive == Some(interval)
            && by_tcp_keepalive.config.tcp_nodelay == before.config.tcp_nodelay
            && by_tcp_keepalive.config.concurrency_limit == before.config.concurrency_limit
            && by_tcp_keepalive.config.rate_limit == before.config.rate_limit
            && by_tcp_keepalive.config.initial_connection_window_size == before.config.initial_connection_window_size
            && by_tcp_keepalive.config.initial_stream_window_size == before.config.initial_stream_window_size
            && by_tcp_keepalive.config.retry_enabled == before.config.retry_enabled
            && by_tcp_keepalive.config.max_retry_attempts == before.config.max_retry_attempts
            && by_tcp_keepalive.config.tls == before.config.tls,
        by_tcp_nodelay.config.endpoint == before.config.endpoint
            && by_tcp_nodelay.config.timeout == before.config.timeout
            && by_tcp_nodelay.config.connect_timeout == before.config.connect_timeout
            && by_tcp_nodelay.config.http2_keepalive_interval == before.config.http2_keepalive_interval
            && by_tcp_nodelay.config.http2_keepalive_timeout == before.config.http2_keepalive_timeout
            && by_tcp_nodelay.config.tcp_keepalive == before.config.tcp_keepalive
            && by_tcp_nodelay.config.tcp_nodelay == enable
            && by_tcp_nodelay.config.concurrency_limit == before.config.concurrency_limit
            && by_tcp_nodelay.config.rate_limit == before.config.rate_limit
            && by_tcp_nodelay.config.initial_connection_window_size == before.config.initial_connection_window_size
            && by_tcp_nodelay.config.initial_stream_window_size == before.config.initial_stream_window_size
            && by_tcp_nodelay.config.retry_enabled == before.config.retry_enabled
            && by_tcp_nodelay.config.max_retry_attempts == before.config.max_retry_attempts
            && by_tcp_nodelay.config.tls == before.config.tls,
        by_concurrency_limit.config.endpoint == before.config.endpoint
            && by_concurrency_limit.config.timeout == before.config.timeout
            && by_concurrency_limit.config.connect_timeout == before.config.connect_timeout
            && by_concurrency_limit.config.http2_keepalive_interval == before.config.http2_keepalive_interval
            && by_concurrency_limit.config.http2_keepalive_timeout == before.config.http2_keepalive_timeout
            && by_concurrency_limit.config.tcp_keepalive == before.config.tcp_keepalive
            && by_concurrency_limit.config.tcp_nodelay == before.config.tcp_nodelay
            && by_concurrency_limit.config.concurrency_limit == Some(size)
            && by_concurrency_limit.config.rate_limit == before.config.rate_limit
            && by_concurrency_limit.config.initial_connection_window_size == before.config.initial_connection_window_size
            && by_concurrency_limit.config.initial_stream_window_size == before.config.initial_stream_window_size
            && by_concurrency_limit.config.retry_enabled == before.config.retry_enabled
            && by_concurrency_limit.config.max_retry_attempts == before.config.max_retry_attempts
            && by_concurrency_limit.config.tls == before.config.tls,
        by_rate_limit.config.endpoint == before.config.endpoint
            && by_rate_limit.config.timeout == before.config.timeout
            && by_rate_limit.config.connect_timeout == before.config.connect_timeout
            && by_rate_limit.config.http2_keepalive_interval == before.config.http2_keepalive_interval
            && by_rate_limit.config.http2_keepalive_timeout == before.config.http2_keepalive_timeout
            && by_rate_limit.config.tcp_keepalive == before.config.tcp_keepalive
            && by_rate_limit.config.tcp_nodelay == before.config.tcp_nodelay
            && by_rate_limit.config.concurrency_limit == before.config.concurrency_limit
            && by_rate_limit.config.rate_limit == Some(rps)
            && by_rate_limit.config.initial_connection_window_size == before.config.initial_connection_window_size
            && by_rate_limit.config.initial_stream_window_size == before.config.initial_stream_window_size
            && by_rate_limit.config.retry_enabled == before.config.retry_enabled
            && by_rate_limit.config.max_retry_attempts == before.config.max_retry_attempts
            && by_rate_limit.config.tls == before.config.tls,
        by_retry.config.endpoint == before.config.endpoint
            && by_retry.config.timeout == before.config.timeout
            && by_retry.config.connect_timeout == before.config.connect_timeout
            && by_retry.config.http2_keepalive_interval == before.config.http2_keepalive_interval
            && by_retry.config.http2_keepalive_timeout == before.config.http2_keepalive_timeout
            && by_retry.config.tcp_keepalive == before.config.tcp_keepalive
            && by_retry.config.tcp_nodelay == before.config.tcp_nodelay
            && by_retry.config.concurrency_limit == before.config.concurrency_limit
            && by_retry.config.rate_limit == before.config.rate_limit
            && by_retry.config.initial_connection_window_size == before.config.initial_connection_window_size
            && by_retry.config.initial_stream_window_size == before.config.initial_stream_window_size
            && by_retry.config.retry_enabled == enable
            && by_retry.config.max_retry_attempts == before.config.max_retry_attempts
            && by_retry.config.tls == before.config.tls,
        by_max_retry_attempts.config.endpoint == before.config.endpoint
            && by_max_retry_attempts.config.timeout == before.config.timeout
            && by_max_retry_attempts.config.connect_timeout == before.config.connect_timeout
            && by_max_retry_attempts.config.http2_keepalive_interval == before.config.http2_keepalive_interval
            && by_max_retry_attempts.config.http2_keepalive_timeout == before.config.http2_keepalive_timeout
            && by_max_retry_attempts.config.tcp_keepalive == before.config.tcp_keepalive
            && by_max_retry_attempts.config.tcp_nodelay == before.config.tcp_nodelay
            && by_max_retry_attempts.config.concurrency_limit == before.config.concurrency_limit
            && by_max_retry_attempts.config.rate_limit == before.config.rate_limit
            && by_max_retry_attempts.config.initial_connection_window_size == before.config.initial_connection_window_size
            && by_max_retry_attempts.config.initial_stream_window_size == before.config.initial_stream_window_size
            && by_max_retry_attempts.config.retry_enabled == before.config.retry_enabled
            && by_max_retry_attempts.config.max_retry_attempts == attempts
            && by_max_retry_attempts.config.tls == before.config.tls,
        by_tls.config.endpoint == before.config.endpoint
            && by_tls.config.timeout == before.config.timeout
            && by_tls.config.connect_timeout == before.config.connect_timeout
            && by_tls.config.http2_keepalive_interval == before.config.http2_keepalive_interval
            && by_tls.config.http2_keepalive_timeout == before.config.http2_keepalive_timeout
            && by_tls.config.tcp_keepalive == before.config.tcp_keepalive
            && by_tls.config.tcp_nodelay == before.config.tcp_nodelay
            && by_tls.config.concurrency_limit == before.config.concurrency_limit
            && by_tls.config.rate_limit == before.config.rate_limit
            && by_tls.config.initial_connection_window_size == before.config.initial_connection_window_size
            && by_tls.config.initial_stream_window_size == before.config.initial_stream_window_size
            && by_tls.config.retry_enabled == before.config.retry_enabled
            && by_tls.config.max_retry_attempts == before.config.max_retry_attempts
            && by_tls.config.tls == Some(tls),
{
}

/// A server that nothing was configured of listens on port 50051 of every IPv4
/// address, takes messages of four MiB, keeps connections alive, tells its health
/// and neither reflects nor uses TLS.
pub proof fn lemma_server_defaults(config: GrpcServerConfig, builder: GrpcServerConfigBuilder)
    requires
        call_ensures(<GrpcServerConfig as Default>::default, (), config),
        call_ensures(GrpcServerConfig::builder, (), builder),
    ensures
        forall|c: GrpcServerConfig|
            c == config || c == builder.config ==> {
                &&& (#[trigger] c.bind_address) == (SocketAddr::V4 { ipv4: 0, port: 50051 })
                &&& c.max_recv_message_size == 4194304
                &&& c.max_send_message_size == 4194304
                &&& c.http2_keepalive_interval is Some && nanos(c.http2_keepalive_interval->0)
                    == 60_000_000_000
                &&& c.http2_keepalive_timeout is Some && nanos(c.http2_keepalive_timeout->0)
                    == 20_000_000_000
                &&& c.tcp_keepalive is Some && nanos(c.tcp_keepalive->0) == 60_000_000_000
                &&& c.tcp_nodelay && c.enable_health_check && !c.enable_reflection
                &&& c.concurrency_limit_per_connection is None
                &&& c.initial_connection_window_size is None
                &&& c.initial_stream_window_size is None
                &&& c.tls is None
            },
        builder.bind_address_error is None,
{
}

/// A client that nothing was configured of connects to port 50051 of its own
/// host in plain text, gives a request thirty seconds and a connection ten, and
/// makes three attempts. One for an endpoint differs in the endpoint alone.
pub proof fn lemma_client_defaults(
    config: GrpcClientConfig,
    builder: GrpcClientConfigBuilder,
    endpoint: &str,
    other: GrpcClientConfig,
)
    requires
        call_ensures(<GrpcClientConfig as Default>::default, (), config),
        call_ensures(GrpcClientConfig::builder, (), builder),
        call_ensures(GrpcClientConfig::for_endpoint, (endpoint,), other),
    ensures
        config.endpoint@ == "http://localhost:50051"@,
        builder.config.endpoint@ == "http://localhost:50051"@,
        other.endpoint@ == endpoint@,
        forall|c: GrpcClientConfig|
            c == config || c == builder.config || c == other ==> {
                &&& nanos(#[trigger] c.timeout) == 30_000_000_000
                &&& nanos(c.connect_timeout) == 10_000_000_000
                &&& c.http2_keepalive_interval is Some && nanos(c.http2_keepalive_interval->0)
                    == 60_000_000_000
                &&& c.http2_keepalive_timeout is Some && nanos(c.http2_keepalive_timeout->0)
                    == 20_000_000_000
                &&& c.tcp_keepalive is Some && nanos(c.tcp_keepalive->0) == 60_000_000_000
                &&& c.tcp_nodelay && c.retry_enabled && c.max_retry_attempts == 3
                &&& c.concurrency_limit is None && c.rate_limit is None
                &&& c.initial_connection_window_size is None
                &&& c.initial_stream_window_size is None
                &&& c.tls is None
            },
{
}

/// A bind address that was set is built with, whatever else was set before it. A
/// malformed one fails the build, with what was wrong with it, and a later valid
/// one mends that.
pub proof fn lemma_bind_address_decides(
    before: GrpcServerConfigBuilder,
    bad: String,
    addr: SocketAddr,
    spoiled: GrpcServerConfigBuilder,
    mended: GrpcServerConfigBuilder,
    failed: Result<GrpcServerConfig, GrpcError>,
    built: Result<GrpcServerConfig, GrpcError>,
)
    requires
        call_ensures(
            GrpcServerConfigBuilder::bind_address,
            (before, Err::<SocketAddr, String>(bad)),
            spoiled,
        ),
        call_ensures(
            GrpcServerConfigBuilder::bind_address,
            (spoiled, Ok::<SocketAddr, String>(addr)),
            mended,
        ),
        call_ensures(GrpcServerConfigBuilder::build, (spoiled,), failed),
        call_ensures(GrpcServerConfigBuilder::build, (mended,), built),
    ensures
        failed matches Err(GrpcError::Config(message)) && message@ == "invalid bind address: "@
            + bad@,
        built matches Ok(config) && config.bind_address == addr && config.max_recv_message_size
            == before.config.max_recv_message_size && config.tls == before.config.tls,
        spoiled.config == before.config,
        mended.config == (GrpcServerConfig { bind_address: addr, ..before.config }),
{
}

/// A client retries just where it was told to, as often as it was told to but at
/// least once, and by the default codes.
pub proof fn lemma_retry_policy(
    config: GrpcClientConfig,
    r: Option<RetryMiddleware>,
    code: Code,
    retried: bool,
)
    requires
        call_ensures(GrpcClientConfig::retry_policy, (&config,), r),
        r matches Some(retry) ==> call_ensures(
            RetryMiddleware::should_retry,
            (&retry, code),
            retried,
        ),
    ensures
        r is Some <==> config.retry_enabled,
        r matches Some(retry) ==> (config.max_retry_attempts > 0 ==> retry.max_attempts
            == config.max_retry_attempts) && (config.max_retry_attempts == 0
            ==> retry.max_attempts == 1),
        r is Some ==> (retried <==> code is Unavailable || code is ResourceExhausted
            || code is Aborted || code is DeadlineExceeded),
{
    if let Some(retry) = r {
        let codes = retry.retry_codes@;
        assert(codes[0] == Code::Unavailable && codes[1] == Code::ResourceExhausted && codes[2]
            == Code::Aborted && codes[3] == Code::DeadlineExceeded);
    }
}

/// A server's TLS configuration starts with a certificate and a key and asks
/// clients for nothing. Each setter sets its own.
pub proof fn lemma_server_tls_setters(
    before: GrpcServerTlsConfig,
    pem: Vec<u8>,
    optional: bool,
    by_client_ca: GrpcServerTlsConfig,
    by_optional: GrpcServerTlsConfig,
)
    requires
        call_ensures(GrpcServerTlsConfig::client_ca, (before, pem), by_client_ca),
        call_ensures(
            GrpcServerTlsConfig::client_auth_optional,
            (before, optional),
            by_optional,
        ),
    ensures
        by_client_ca.cert_pem == before.cert_pem && by_client_ca.key_pem == before.key_pem
            && by_client_ca.client_auth_optional == before.client_auth_optional,
        by_client_ca.client_ca_cert_pem matches Some(ca) && ca@ == pem@,
        by_optional.cert_pem == before.cert_pem && by_optional.key_pem == before.key_pem
            && by_optional.client_ca_cert_pem == before.client_ca_cert_pem
            && by_optional.client_auth_optional == optional,
{
}

/// A client's TLS configuration starts empty. Each setter sets its own.
pub proof fn lemma_client_tls_setters(
    fresh: GrpcClientTlsConfig,
    before: GrpcClientTlsConfig,
    pem: Vec<u8>,
    key: Vec<u8>,
    domain: &str,
    by_ca: GrpcClientTlsConfig,
    by_domain: GrpcClientTlsConfig,
    by_identity: GrpcClientTlsConfig,
)
    requires
        call_ensures(GrpcClientTlsConfig::new, (), fresh),
        call_ensures(GrpcClientTlsConfig::ca_certificate, (before, pem), by_ca),
        call_ensures(GrpcClientTlsConfig::domain_name, (before, domain), by_domain),
        call_ensures(
            GrpcClientTlsConfig::identity,
            (before, pem, key),
            by_identity,
        ),
    ensures
        fresh.ca_cert_pem is None && fresh.domain_name is None && fresh.client_cert_pem is None
            && fresh.client_key_pem is None,
        by_ca.domain_name == before.domain_name && by_ca.client_cert_pem
            == before.client_cert_pem && by_ca.client_key_pem == before.client_key_pem,
        by_ca.ca_cert_pem matches Some(v) && v@ == pem@,
        by_domain.ca_cert_pem == before.ca_cert_pem && by_domain.client_cert_pem
            == before.client_cert_pem && by_domain.client_key_pem == before.client_key_pem,
        by_domain.domain_name matches Some(v) && v@ == domain@,
        by_identity.ca_cert_pem == before.ca_cert_pem && by_identity.domain_name
            == before.domain_name,
        by_identity.client_cert_pem matches Some(v) && v@ == pem@,
        by_identity.client_key_pem matches Some(v) && v@ == key@,
{
}

/// A server's TLS configuration holds the certificate and the key that it was made
/// with, each in its place.
pub proof fn lemma_server_tls_starts(cert: Vec<u8>, key: Vec<u8>, r: GrpcServerTlsConfig)
    requires
        call_ensures(GrpcServerTlsConfig::new, (cert, key), r),
    ensures
        r.cert_pem@ == cert@,
        r.key_pem@ == key@,
        r.client_ca_cert_pem is None,
        !r.client_auth_optional,
{
}

/// A client is built with the endpoint that was set, and with everything else as
/// it was.
pub proof fn lemma_endpoint_is_built_with(
    before: GrpcClientConfigBuilder,
    endpoint: &str,
    builder: GrpcClientConfigBuilder,
    config: GrpcClientConfig,
)
    requires
        call_ensures(GrpcClientConfigBuilder::endpoint, (before, endpoint), builder),
        call_ensures(GrpcClientConfigBuilder::build, (builder,), config),
    ensures
        config.endpoint@ == endpoint@,
        config == (GrpcClientConfig { endpoint: config.endpoint, ..before.config }),
{
}

/// A configuration that is written for debugging does not depend on what its
/// certificates and keys hold, but on how long they are or whether they are
/// there.
pub proof fn lemma_secrets_are_not_written(
    one: GrpcServerTlsConfig,
    other: GrpcServerTlsConfig,
    first: String,
    second: String,
    client: GrpcClientTlsConfig,
    fellow: GrpcClientTlsConfig,
    third: String,
    fourth: String,
)
    requires
        call_ensures(GrpcServerTlsConfig::debug_text, (&one,), first),
        call_ensures(GrpcServerTlsConfig::debug_text, (&other,), second),
        one.cert_pem@.len() == other.cert_pem@.len(),
        one.key_pem@.len() == other.key_pem@.len(),
        one.client_ca_cert_pem is Some == other.client_ca_cert_pem is Some,
        one.client_auth_optional == other.client_auth_optional,
        call_ensures(GrpcClientTlsConfig::debug_text, (&client,), third),
        call_ensures(GrpcClientTlsConfig::debug_text, (&fellow,), fourth),
        client.ca_cert_pem is Some == fellow.ca_cert_pem is Some,
        client.client_cert_pem is Some == fellow.client_cert_pem is Some,
        client.client_key_pem is Some == fellow.client_key_pem is Some,
        opt_text(client.domain_name) == opt_text(fellow.domain_name),
    ensures
        first@ == second@,
        third@ == fourth@,
{
}

/// A copy of a configuration holds what the configuration holds.
pub proof fn lemma_copies_are_alike(
    server: GrpcServerConfig,
    server_copy: GrpcServerConfig,
    client: GrpcClientConfig,
    client_copy: GrpcClientConfig,
)
    requires
        call_ensures(<GrpcServerConfig as Clone>::clone, (&server,), server_copy),
        call_ensures(<GrpcClientConfig as Clone>::clone, (&client,), client_copy),
    ensures
        server_copy == (GrpcServerConfig { tls: server_copy.tls, ..server }),
        server_copy.tls is Some <==> server.tls is Some,
        server.tls matches Some(tls) ==> server_copy.tls->0.cert_pem@ == tls.cert_pem@
            && server_copy.tls->0.key_pem@ == tls.key_pem@
            && server_copy.tls->0.client_auth_optional == tls.client_auth_optional && opt_bytes(
            server_copy.tls->0.client_ca_cert_pem,
        ) == opt_bytes(tls.client_ca_cert_pem),
        client_copy == (GrpcClientConfig {
            endpoint: client_copy.endpoint,
            tls: client_copy.tls,
            ..client
        }),
        client_copy.endpoint@ == client.endpoint@,
        client_copy.tls is Some <==> client.tls is Some,
        client.tls matches Some(tls) ==> opt_text(client_copy.tls->0.domain_name) == opt_text(
            tls.domain_name,
        ) && opt_bytes(client_copy.tls->0.ca_cert_pem) == opt_bytes(tls.ca_cert_pem) && opt_bytes(
            client_copy.tls->0.client_cert_pem,
        ) == opt_bytes(tls.client_cert_pem) && opt_bytes(client_copy.tls->0.client_key_pem)
            == opt_bytes(tls.client_key_pem),
{
}

} // verus!
