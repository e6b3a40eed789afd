//! tonic's endpoints and servers, and the settings that they hold.

use crate::error::error_text;
use crate::time::nanos;
use std::time::Duration;
use tonic::transport::{Certificate, ClientTlsConfig, Endpoint, Identity, Server, ServerTlsConfig};
use vstd::prelude::*;

verus! {

#[verifier::external_type_specification]
#[verifier::external_body]
pub struct ExEndpoint(tonic::transport::Endpoint);

#[verifier::external_type_specification]
#[verifier::external_body]
pub struct ExChannel(tonic::transport::Channel);

#[verifier::external_type_specification]
#[verifier::external_body]
pub struct ExClientTlsConfig(tonic::transport::ClientTlsConfig);

#[verifier::external_type_specification]
#[verifier::external_body]
#[verifier::reject_recursive_types(L)]
pub struct ExServer<L>(tonic::transport::Server<L>);

#[verifier::external_type_specification]
#[verifier::external_body]
pub struct ExLayerIdentity(tower::layer::util::Identity);

#[verifier::external_type_specification]
#[verifier::external_body]
pub struct ExServerTlsConfig(tonic::transport::ServerTlsConfig);

/// Cloning a channel gives another handle to the same connection. Nothing is
/// said of the handle.
pub assume_specification[ <tonic::transport::Channel as Clone>::clone ](
    c: &tonic::transport::Channel,
) -> (r: tonic::transport::Channel);

/// The TLS settings of a client.
#[verifier::ext_equal]
pub struct ClientTlsSettings {
    /// CA certificates, in PEM.
    pub ca_certificates: Seq<Seq<u8>>,
    /// The domain to verify.
    pub domain_name: Option<Seq<char>>,
    /// The client's certificate and key, in PEM.
    pub identity: Option<(Seq<u8>, Seq<u8>)>,
}

/// What an endpoint connects to.
#[verifier::ext_equal]
pub enum EndpointTarget {
    /// A URI, as `http` writes it.
    Uri(Seq<char>),
    /// A Unix socket with a path.
    Socket(Seq<char>),
}

/// The URI that a text spells, as `http` writes it, if it spells one.
pub uninterp spec fn uri_text(text: Seq<char>) -> Option<Seq<char>>;

/// The path of a Unix socket that a text spells, if it spells one: what follows
/// `unix:`, two slashes after it left aside.
pub open spec fn socket_path(text: Seq<char>) -> Option<Seq<char>> {
    if "unix://"@.is_prefix_of(text) {
        Some(text.skip("unix://"@.len() as int))
    } else if "unix:"@.is_prefix_of(text) {
        Some(text.skip("unix:"@.len() as int))
    } else {
        None
    }
}

/// What an endpoint that is made from a text connects to. `None` where no
/// endpoint can be made from it.
pub open spec fn endpoint_target(text: Seq<char>) -> Option<EndpointTarget> {
    match socket_path(text) {
        Some(path) => Some(EndpointTarget::Socket(path)),
        None => match uri_text(text) {
            Some(uri) => Some(EndpointTarget::Uri(uri)),
            None => None,
        },
    }
}

/// Whether a text is one that an endpoint can be made from: a URI, or the path
/// of a Unix socket.
pub open spec fn is_endpoint_text(text: Seq<char>) -> bool {
    endpoint_target(text) is Some
}

/// The settings of an endpoint.
#[verifier::ext_equal]
pub struct EndpointSettings {
    /// What the endpoint connects to.
    pub target: EndpointTarget,
    pub timeout: Option<Duration>,
    pub connect_timeout: Option<Duration>,
    pub tcp_nodelay: bool,
    pub tcp_keepalive: Option<Duration>,
    pub http2_keep_alive_interval: Option<Duration>,
    pub keep_alive_timeout: Option<Duration>,
    pub initial_connection_window_size: Option<u32>,
    pub initial_stream_window_size: Option<u32>,
    pub concurrency_limit: Option<usize>,
    pub rate_limit: Option<(u64, Duration)>,
    pub tls: Option<ClientTlsSettings>,
}

impl EndpointSettings {
    /// The settings of an endpoint that connects somewhere, and no more.
    pub open spec fn initial(target: EndpointTarget) -> EndpointSettings {
        EndpointSettings {
            target,
            timeout: None,
            connect_timeout: None,
            tcp_nodelay: true,
            tcp_keepalive: None,
            http2_keep_alive_interval: None,
            keep_alive_timeout: None,
            initial_connection_window_size: None,
            initial_stream_window_size: None,
            concurrency_limit: None,
            rate_limit: None,
            tls: None,
        }
    }
}

/// The settings that an endpoint holds. Its TLS settings are those that it was
/// given; what it holds is the connector made from them.
pub uninterp spec fn endpoint_settings(e: tonic::transport::Endpoint) -> EndpointSettings;

/// The settings that a client's TLS configuration holds.
pub uninterp spec fn client_tls_settings(c: tonic::transport::ClientTlsConfig) -> ClientTlsSettings;

/// `Endpoint::from_shared` makes an endpoint with initial settings of a URI or
/// of a Unix socket's path. Every other text fails in one way.
#[verifier::external_body]
pub(crate) fn endpoint_from_shared(text: String) -> (r: Result<Endpoint, String>)
    ensures
        match r {
            Ok(e) => match (socket_path(text@), uri_text(text@)) {
                (Some(path), _) => endpoint_settings(e) == EndpointSettings::initial(
                    EndpointTarget::Socket(path),
                ),
                (None, Some(uri)) => endpoint_settings(e) == EndpointSettings::initial(
                    EndpointTarget::Uri(uri),
                ),
                (None, None) => false,
            },
            Err(message) => socket_path(text@) is None && uri_text(text@) is None && message@
                == "invalid URI"@,
        },
{
    match Endpoint::from_shared(text) {
        Ok(endpoint) => Ok(endpoint),
        Err(e) => Err(e.to_string()),
    }
}

/// `Endpoint::timeout` sets the timeout of requests.
pub assume_specification[ tonic::transport::Endpoint::timeout ](
    e: tonic::transport::Endpoint,
    dur: std::time::Duration,
) -> (r: tonic::transport::Endpoint)
    ensures
        endpoint_settings(r) == (EndpointSettings { timeout: Some(dur), ..endpoint_settings(e) }),
;

/// `Endpoint::connect_timeout` sets the timeout of connecting.
pub assume_specification[ tonic::transport::Endpoint::connect_timeout ](
    e: tonic::transport::Endpoint,
    dur: std::time::Duration,
) -> (r: tonic::transport::Endpoint)
    ensures
        endpoint_settings(r) == (EndpointSettings {
            connect_timeout: Some(dur),
            ..endpoint_settings(e)
        }),
;

/// `Endpoint::tcp_nodelay` sets whether `TCP_NODELAY` is.
pub assume_specification[ tonic::transport::Endpoint::tcp_nodelay ](
    e: tonic::transport::Endpoint,
    enabled: bool,
) -> (r: tonic::transport::Endpoint)
    ensures
        endpoint_settings(r) == (EndpointSettings { tcp_nodelay: enabled, ..endpoint_settings(e) }),
;

/// `Endpoint::tcp_keepalive` sets or clears the keepalive of TCP.
pub assume_specification[ tonic::transport::Endpoint::tcp_keepalive ](
    e: tonic::transport::Endpoint,
    tcp_keepalive: Option<std::time::Duration>,
) -> (r: tonic::transport::Endpoint)
    ensures
        endpoint_settings(r) == (EndpointSettings { tcp_keepalive, ..endpoint_settings(e) }),
;

/// `Endpoint::http2_keep_alive_interval` sets the keepalive interval of HTTP/2.
pub assume_specification[ tonic::transport::Endpoint::http2_keep_alive_interval ](
    e: tonic::transport::Endpoint,
    interval: std::time::Duration,
) -> (r: tonic::transport::Endpoint)
    ensures
        endpoint_settings(r) == (EndpointSettings {
            http2_keep_alive_interval: Some(interval),
            ..endpoint_settings(e)
        }),
;

/// `Endpoint::keep_alive_timeout` sets the keepalive timeout of HTTP/2.
pub assume_specification[ tonic::transport::Endpoint::keep_alive_timeout ](
    e: tonic::transport::Endpoint,
    duration: std::time::Duration,
) -> (r: tonic::transport::Endpoint)
    ensures
        endpoint_settings(r) == (EndpointSettings {
            keep_alive_timeout: Some(duration),
            ..endpoint_settings(e)
        }),
;

/// `Endpoint::concurrency_limit` sets the limit on concurrent requests.
pub assume_specification[ tonic::transport::Endpoint::concurrency_limit ](
    e: tonic::transport::Endpoint,
    limit: usize,
) -> (r: tonic::transport::Endpoint)
    ensures
        endpoint_settings(r) == (EndpointSettings {
            concurrency_limit: Some(limit),
            ..endpoint_settings(e)
        }),
;

/// `Endpoint::rate_limit` sets how many requests are sent in a time.
pub assume_specification[ tonic::transport::Endpoint::rate_limit ](
    e: tonic::transport::Endpoint,
    limit: u64,
    duration: std::time::Duration,
) -> (r: tonic::transport::Endpoint)
    ensures
        endpoint_settings(r) == (EndpointSettings {
            rate_limit: Some((limit, duration)),
            ..endpoint_settings(e)
        }),
;

/// `Endpoint::initial_connection_window_size` sets the window of a connection.
#[verifier::external_body]
pub(crate) fn endpoint_connection_window(e: Endpoint, size: u32) -> (r: Endpoint)
    ensures
        endpoint_settings(r) == (EndpointSettings {
            initial_connection_window_size: Some(size),
            ..endpoint_settings(e)
        }),
{
    e.initial_connection_window_size(size)
}

/// `Endpoint::initial_stream_window_size` sets the window of a stream.
#[verifier::external_body]
pub(crate) fn endpoint_stream_window(e: Endpoint, size: u32) -> (r: Endpoint)
    ensures
        endpoint_settings(r) == (EndpointSettings {
            initial_stream_window_size: Some(size),
            ..endpoint_settings(e)
        }),
{
    e.initial_stream_window_size(size)
}

/// How a failure to apply TLS settings to an endpoint is told.
pub open spec fn tls_failure(target: EndpointTarget) -> Seq<char> {
    match target {
        EndpointTarget::Uri(_) => "transport error"@,
        EndpointTarget::Socket(_) => "cannot apply TLS config for unix domain socket"@,
    }
}

/// `Endpoint::tls_config` sets the TLS settings where it succeeds. It always
/// fails for a Unix socket. For a URI it fails where certificates, key or domain
/// are malformed; that rests on the cryptography provider of the process too,
/// and is left unsaid.
pub assume_specification[ tonic::transport::Endpoint::tls_config ](
    e: tonic::transport::Endpoint,
    tls_config: tonic::transport::ClientTlsConfig,
) -> (r: std::result::Result<tonic::transport::Endpoint, tonic::transport::Error>)
    ensures
        r matches Ok(f) ==> endpoint_settings(f) == (EndpointSettings {
            tls: Some(client_tls_settings(tls_config)),
            ..endpoint_settings(e)
        }),
        r matches Err(error) ==> error_text(error) == tls_failure(endpoint_settings(e).target),
        endpoint_settings(e).target is Socket ==> r is Err,
;

/// `ClientTlsConfig::new` holds no settings.
pub assume_specification[ tonic::transport::ClientTlsConfig::new ]() -> (r:
    tonic::transport::ClientTlsConfig)
    ensures
        client_tls_settings(r) == (ClientTlsSettings {
            ca_certificates: Seq::empty(),
            domain_name: None,
            identity: None,
        }),
;

/// `ClientTlsConfig::ca_certificate` adds a certificate in PEM.
#[verifier::external_body]
pub(crate) fn client_tls_ca(c: ClientTlsConfig, pem: &[u8]) -> (r: ClientTlsConfig)
    ensures
        client_tls_settings(r) == (ClientTlsSettings {
            ca_certificates: client_tls_settings(c).ca_certificates.push(pem@),
            ..client_tls_settings(c)
        }),
{
    c.ca_certificate(Certificate::from_pem(pem))
}

/// `ClientTlsConfig::domain_name` sets the domain to verify.
#[verifier::external_body]
pub(crate) fn client_tls_domain(c: ClientTlsConfig, domain: String) -> (r: ClientTlsConfig)
    ensures
        client_tls_settings(r) == (ClientTlsSettings {
            domain_name: Some(domain@),
            ..client_tls_settings(c)
        }),
{
    c.domain_name(domain)
}

/// `ClientTlsConfig::identity` sets the client's certificate and key, in PEM.
#[verifier::external_body]
pub(crate) fn client_tls_identity(c: ClientTlsConfig, cert: &[u8], key: &[u8]) -> (r:
    ClientTlsConfig)
    ensures
        client_tls_settings(r) == (ClientTlsSettings {
            identity: Some((cert@, key@)),
            ..client_tls_settings(c)
        }),
{
    c.identity(Identity::from_pem(cert, key))
}

/// The TLS settings of a server.
#[verifier::ext_equal]
pub struct ServerTlsSettings {
    /// The server's certificate chain and key, in PEM.
    pub identity: Option<(Seq<u8>, Seq<u8>)>,
    /// The CA that client certificates are verified against, in PEM.
    pub client_ca_root: Option<Seq<u8>>,
    /// Whether clients may leave their certificate out.
    pub client_auth_optional: bool,
}

/// The settings of a server.
#[verifier::ext_equal]
pub struct ServerSettings {
    pub tcp_nodelay: bool,
    pub tcp_keepalive: Option<Duration>,
    pub http2_keepalive_interval: Option<Duration>,
    /// In nanoseconds.
    pub http2_keepalive_timeout: u128,
    pub initial_connection_window_size: Option<u32>,
    pub initial_stream_window_size: Option<u32>,
    pub concurrency_limit_per_connection: Option<usize>,
    pub tls: Option<ServerTlsSettings>,
}

impl ServerSettings {
    /// The settings of a server to which nothing was done.
    pub open spec fn initial() -> ServerSettings {
        ServerSettings {
            tcp_nodelay: true,
            tcp_keepalive: None,
            http2_keepalive_interval: None,
            http2_keepalive_timeout: 20_000_000_000,
            initial_connection_window_size: None,
            initial_stream_window_size: None,
            concurrency_limit_per_connection: None,
            tls: None,
        }
    }
}

/// The settings that a server holds. Its TLS settings are those that it was
/// given; what it holds is the acceptor made from them.
pub uninterp spec fn server_settings(s: tonic::transport::Server) -> ServerSettings;

/// The settings that a server's TLS configuration holds.
pub uninterp spec fn server_tls_settings(c: tonic::transport::ServerTlsConfig) -> ServerTlsSettings;

/// `Server::builder` makes a server with initial settings.
#[verifier::external_body]
pub(crate) fn server_new() -> (r: Server)
    ensures
        server_settings(r) == ServerSettings::initial(),
{
    Server::builder()
}

/// `Server::tcp_nodelay` sets whether `TCP_NODELAY` is.
#[verifier::external_body]
pub(crate) fn server_tcp_nodelay(s: Server, enabled: bool) -> (r: Server)
    ensures
        server_settings(r) == (ServerSettings { tcp_nodelay: enabled, ..server_settings(s) }),
{
    s.tcp_nodelay(enabled)
}

/// `Server::tcp_keepalive` sets or clears the keepalive of TCP.
#[verifier::external_body]
pub(crate) fn server_tcp_keepalive(s: Server, tcp_keepalive: Option<Duration>) -> (r: Server)
    ensures
        server_settings(r) == (ServerSettings { tcp_keepalive, ..server_settings(s) }),
{
    s.tcp_keepalive(tcp_keepalive)
}

/// `Server::http2_keepalive_interval` sets or clears the keepalive interval of
/// HTTP/2.
#[verifier::external_body]
pub(crate) fn server_http2_keepalive_interval(s: Server, interval: Option<Duration>) -> (r: Server)
    ensures
        server_settings(r) == (ServerSettings {
            http2_keepalive_interval: interval,
            ..server_settings(s)
        }),
{
    s.http2_keepalive_interval(interval)
}

/// `Server::http2_keepalive_timeout` sets the keepalive timeout of HTTP/2.
#[verifier::external_body]
pub(crate) fn server_http2_keepalive_timeout(s: Server, timeout: Duration) -> (r: Server)
    ensures
        server_settings(r) == (ServerSettings {
            http2_keepalive_timeout: nanos(timeout),
            ..server_settings(s)
        }),
{
    s.http2_keepalive_timeout(Some(timeout))
}

/// `Server::initial_connection_window_size` sets the window of a connection.
#[verifier::external_body]
pub(crate) fn server_connection_window(s: Server, size: u32) -> (r: Server)
    ensures
        server_settings(r) == (ServerSettings {
            initial_connection_window_size: Some(size),
            ..server_settings(s)
        }),
{
    s.initial_connection_window_size(size)
}

/// `Server::initial_stream_window_size` sets the window of a stream.
#[verifier::external_body]
pub(crate) fn server_stream_window(s: Server, size: u32) -> (r: Server)
    ensures
        server_settings(r) == (ServerSettings {
            initial_stream_window_size: Some(size),
            ..server_settings(s)
        }),
{
    s.initial_stream_window_size(size)
}

/// `Server::concurrency_limit_per_connection` sets the limit on concurrent
/// requests.
#[verifier::external_body]
pub(crate) fn server_concurrency_limit(s: Server, limit: usize) -> (r: Server)
    ensures
        server_settings(r) == (ServerSettings {
            concurrency_limit_per_connection: Some(limit),
            ..server_settings(s)
        }),
{
    s.concurrency_limit_per_connection(limit)
}

/// `Server::tls_config` sets the TLS settings where it succeeds. It fails where
/// certificates or key are malformed; that rests on the cryptography provider
/// of the process too, and is left unsaid. It panics without an identity.
#[verifier::external_body]
pub(crate) fn server_tls(s: Server, tls: ServerTlsConfig) -> (r: Result<
    Server,
    tonic::transport::Error,
>)
    requires
        server_tls_settings(tls).identity is Some,
    ensures
        r matches Ok(t) ==> server_settings(t) == (ServerSettings {
            tls: Some(server_tls_settings(tls)),
            ..server_settings(s)
        }),
        r matches Err(error) ==> error_text(error) == "transport error"@,
{
    s.tls_config(tls)
}

/// Whether tonic may make this of TLS settings on a server.
pub closed spec fn is_server_tls_outcome(
    s: Server,
    tls: ServerTlsConfig,
    r: Result<Server, tonic::transport::Error>,
) -> bool {
    call_ensures(server_tls, (s, tls), r)
}

/// What tonic may make of TLS settings on a server is just what `server_tls`
/// gives.
pub(crate) proof fn lemma_is_server_tls_outcome(
    s: Server,
    tls: ServerTlsConfig,
    r: Result<Server, tonic::transport::Error>,
)
    ensures
        is_server_tls_outcome(s, tls, r) <==> call_ensures(server_tls, (s, tls), r),
{
}

/// `ServerTlsConfig::new` holds no settings.
pub assume_specification[ tonic::transport::ServerTlsConfig::new ]() -> (r:
    tonic::transport::ServerTlsConfig)
    ensures
        server_tls_settings(r) == (ServerTlsSettings {
            identity: None,
            client_ca_root: None,
            client_auth_optional: false,
        }),
;

/// `ServerTlsConfig::identity` sets the server's certificate chain and key, in
/// PEM.
#[verifier::external_body]
pub(crate) fn server_tls_identity(c: ServerTlsConfig, cert: &[u8], key: &[u8]) -> (r:
    ServerTlsConfig)
    ensures
        server_tls_settings(r) == (ServerTlsSettings {
            identity: Some((cert@, key@)),
            ..server_tls_settings(c)
        }),
{
    c.identity(Identity::from_pem(cert, key))
}

/// `ServerTlsConfig::client_ca_root` sets the CA of client certificates, in
/// PEM.
#[verifier::external_body]
pub(crate) fn server_tls_client_ca(c: ServerTlsConfig, pem: &[u8]) -> (r: ServerTlsConfig)
    ensures
        server_tls_settings(r) == (ServerTlsSettings {
            client_ca_root: Some(pem@),
            ..server_tls_settings(c)
        }),
{
    c.client_ca_root(Certificate::from_pem(pem))
}

/// `ServerTlsConfig::client_auth_optional` sets whether clients may leave their
/// certificate out.
pub assume_specification[ tonic::transport::ServerTlsConfig::client_auth_optional ](
    c: tonic::transport::ServerTlsConfig,
    optional: bool,
) -> (r: tonic::transport::ServerTlsConfig)
    ensures
        server_tls_settings(r) == (ServerTlsSettings {
            client_auth_optional: optional,
            ..server_tls_settings(c)
        }),
;

/// `CryptoProvider::install_default` makes rustls's `ring` provider that of the
/// process, unless it has one.
#[verifier::external_body]
pub(crate) fn install_crypto_provider() {
    let _ = rustls::crypto::ring::default_provider().install_default();
}

/// A text that starts with `unix:` is the path of a Unix socket, with or without
/// two slashes before it, and no other text is.
pub proof fn lemma_unix_texts(path: Seq<char>, text: Seq<char>)
    ensures
        endpoint_target("unix://"@ + path) == Some(EndpointTarget::Socket(path)),
        !("//"@.is_prefix_of(path)) ==> endpoint_target("unix:"@ + path) == Some(
            EndpointTarget::Socket(path),
        ),
        !("unix:"@.is_prefix_of(text)) ==> endpoint_target(text) == match uri_text(text) {
            Some(uri) => Some(EndpointTarget::Uri(uri)),
            None => None,
        },
{
    reveal_strlit("unix://");
    reveal_strlit("unix:");
    reveal_strlit("//");
    let long = "unix://"@ + path;
    assert(long.take(7) =~= "unix://"@);
    assert("unix://"@.is_prefix_of(long));
    assert(long.skip(7) =~= path);
    let short = "unix:"@ + path;
    assert("unix:"@.is_prefix_of(short));
    assert(short.skip(5) =~= path);
    if "unix://"@.is_prefix_of(short) {
        assert(short.take(7) =~= "unix://"@);
        assert(path.take(2) =~= "//"@) by {
            assert(short[5] == "unix://"@[5]);
            assert(short[6] == "unix://"@[6]);
        }
        assert("//"@.is_prefix_of(path));
    }
    if "unix://"@.is_prefix_of(text) {
        assert(text.take(5) =~= "unix:"@) by {
            assert(text.take(7) =~= "unix://"@);
            assert(forall|k: int| 0 <= k < 5 ==> text[k] == #[trigger] "unix://"@[k]);
        }
        assert("unix:"@.is_prefix_of(text));
    }
}

} // verus!
