//! gRPC server: how it is set up.

use crate::config::{is_default_server, GrpcServerConfig, GrpcServerTlsConfig, SocketAddr};
use crate::crypto_provider::ensure_installed;
use crate::error::{error_text, transport_result, GrpcError, Result};
use crate::time::nanos;
use crate::transport::{
    is_server_tls_outcome, lemma_is_server_tls_outcome,
    server_concurrency_limit, server_connection_window, server_http2_keepalive_interval,
    server_http2_keepalive_timeout, server_new, server_settings, server_stream_window,
    server_tcp_keepalive, server_tcp_nodelay, server_tls, server_tls_client_ca,
    server_tls_identity, server_tls_settings, ServerSettings, ServerTlsSettings,
};
use tonic::transport::{Server, ServerTlsConfig};
use vstd::prelude::*;

verus! {

/// gRPC server builder.
pub struct GrpcServerBuilder {
    /// The configuration of the server.
    pub config: GrpcServerConfig,
}

/// The TLS settings for a configuration. Whether clients may leave their
/// certificate out is told only where there is a CA for it.
pub open spec fn tls_settings(tls: GrpcServerTlsConfig) -> ServerTlsSettings {
    ServerTlsSettings {
        identity: Some((tls.cert_pem@, tls.key_pem@)),
        client_ca_root: tls@.client_ca_cert_pem,
        client_auth_optional: tls.client_ca_cert_pem is Some && tls.client_auth_optional,
    }
}

/// The settings of a server for a configuration.
pub open spec fn settings_for(config: GrpcServerConfig) -> ServerSettings {
    ServerSettings {
        tcp_nodelay: config.tcp_nodelay,
        tcp_keepalive: config.tcp_keepalive,
        http2_keepalive_interval: config.http2_keepalive_interval,
        http2_keepalive_timeout: match config.http2_keepalive_timeout {
            Some(timeout) => nanos(timeout),
            None => ServerSettings::initial().http2_keepalive_timeout,
        },
        initial_connection_window_size: config.initial_connection_window_size,
        initial_stream_window_size: config.initial_stream_window_size,
        concurrency_limit_per_connection: config.concurrency_limit_per_connection,
        tls: match config.tls {
            Some(tls) => Some(tls_settings(tls)),
            None => None,
        },
    }
}

impl GrpcServerBuilder {
    /// Create a new server builder.
    pub fn new(config: GrpcServerConfig) -> (r: Self)
        ensures
            r.config == config,
    {
        GrpcServerBuilder { config }
    }

    /// tonic's server with the settings of this builder's configuration.
    pub fn build_transport(&self) -> (r: Result<Server>)
        ensures
            match r {
                Ok(server) => server_settings(server) == settings_for(self.config),
                Err(e) => self.config.tls is Some && (e matches GrpcError::Transport(t)
                    && error_text(t) == "transport error"@),
            },
            self.config.tls is Some ==> exists|
                s: Server,
                settings: ServerTlsConfig,
                out: std::result::Result<Server, tonic::transport::Error>,
            |
                #[trigger] is_server_tls_outcome(s, settings, out) && server_settings(s) == (
                ServerSettings { tls: None, ..settings_for(self.config) }) && server_tls_settings(
                    settings,
                ) == tls_settings(self.config.tls->0) && r == (match out {
                    Ok(server) => Ok::<Server, GrpcError>(server),
                    Err(e) => Err(GrpcError::Transport(e)),
                }),
    {
        let mut builder = server_tcp_keepalive(
            server_tcp_nodelay(server_new(), self.config.tcp_nodelay),
            self.config.tcp_keepalive,
        );
        if let Some(interval) = self.config.http2_keepalive_interval {
            builder = server_http2_keepalive_interval(builder, Some(interval));
        }
        if let Some(timeout) = self.config.http2_keepalive_timeout {
            builder = server_http2_keepalive_timeout(builder, timeout);
        }
        if let Some(window) = self.config.initial_connection_window_size {
            builder = server_connection_window(builder, window);
        }
        if let Some(window) = self.config.initial_stream_window_size {
            builder = server_stream_window(builder, window);
        }
        if let Some(limit) = self.config.concurrency_limit_per_connection {
            builder = server_concurrency_limit(builder, limit);
        }
        if let Some(tls) = &self.config.tls {
            let settings = build_server_tls_config(tls);
            let out = server_tls(builder, settings);
            proof {
                lemma_is_server_tls_outcome(builder, settings, out);
                assert(server_settings(builder) =~= (ServerSettings {
                    tls: None,
                    ..settings_for(self.config)
                }));
            }
            return transport_result(out);
        }
        Ok(builder)
    }
}

/// tonic's TLS configuration for a configuration.
pub fn build_server_tls_config(tls: &GrpcServerTlsConfig) -> (r: ServerTlsConfig)
    ensures
        server_tls_settings(r) == tls_settings(*tls),
{
    ensure_installed();
    let mut config = server_tls_identity(
        ServerTlsConfig::new(),
        tls.cert_pem.as_slice(),
        tls.key_pem.as_slice(),
    );
    if let Some(ca) = &tls.client_ca_cert_pem {
        config = server_tls_client_ca(config, ca.as_slice()).client_auth_optional(
            tls.client_auth_optional,
        );
    }
    config
}

/// gRPC server wrapper.
pub struct GrpcServer;

impl GrpcServer {
    /// Create a server builder with the given configuration.
    pub fn builder(config: GrpcServerConfig) -> (r: GrpcServerBuilder)
        ensures
            r.config == config,
    {
        GrpcServerBuilder::new(config)
    }

    /// Create a server builder with default configuration.
    pub fn with_default_config() -> (r: GrpcServerBuilder)
        ensures
            is_default_server(r.config),
    {
        GrpcServerBuilder::new(GrpcServerConfig::default())
    }

    /// Create a server builder bound to an address, given the result of parsing
    /// it.
    pub fn bind(addr: std::result::Result<SocketAddr, String>) -> (r: Result<GrpcServerBuilder>)
        ensures
            match addr {
                Ok(a) => r matches Ok(b) && b.config.bind_address == a && is_default_server(
                    (GrpcServerConfig {
                        bind_address: (SocketAddr::V4 { ipv4: 0, port: 50051 }),
                        ..b.config
                    }),
                ),
                Err(e) => r matches Err(GrpcError::Config(msg)) && msg@
                    == "invalid bind address: "@ + e@,
            },
    {
        match GrpcServerConfig::builder().bind_address(addr).build() {
            Ok(config) => Ok(GrpcServerBuilder::new(config)),
            Err(e) => Err(e),
        }
    }
}

/// Each setting of a server is the configuration's own. Where the configuration
/// leaves the keepalive timeout open, it is twenty seconds.
pub proof fn lemma_each_setting_is_its_own(builder: GrpcServerBuilder, server: Server)
    requires
        call_ensures(
            GrpcServerBuilder::build_transport,
            (&builder,),
            Ok::<Server, GrpcError>(server),
        ),
    ensures
        ({
            let config = builder.config;
            let settings = server_settings(server);
            &&& settings.tcp_nodelay == config.tcp_nodelay
            &&& settings.tcp_keepalive == config.tcp_keepalive
            &&& settings.http2_keepalive_interval == config.http2_keepalive_interval
            &&& config.http2_keepalive_timeout matches Some(timeout)
                ==> settings.http2_keepalive_timeout == nanos(timeout)
            &&& config.http2_keepalive_timeout is None ==> settings.http2_keepalive_timeout
                == 20_000_000_000
            &&& settings.initial_connection_window_size == config.initial_connection_window_size
            &&& settings.initial_stream_window_size == config.initial_stream_window_size
            &&& settings.concurrency_limit_per_connection
                == config.concurrency_limit_per_connection
            &&& settings.tls is Some <==> config.tls is Some
            &&& settings.tls matches Some(tls) ==> {
                let own = config.tls->0;
                &&& tls.identity == Some((own.cert_pem@, own.key_pem@))
                &&& own.client_ca_cert_pem is None ==> tls.client_ca_root is None
                    && !tls.client_auth_optional
                &&& own.client_ca_cert_pem matches Some(ca) ==> tls.client_ca_root == Some(ca@)
                    && tls.client_auth_optional == own.client_auth_optional
            }
        }),
{
}

/// Without TLS a server is always built. With it, a failure is one of the
/// transport.
pub proof fn lemma_only_tls_fails(builder: GrpcServerBuilder, r: Result<Server>)
    requires
        call_ensures(GrpcServerBuilder::build_transport, (&builder,), r),
    ensures
        builder.config.tls is None ==> r is Ok,
        r matches Err(e) ==> e is Transport,
{
}

/// The TLS settings of a server are those of its configuration. Clients are
/// asked for a certificate just where there is a CA for it, and may leave it out
/// just where the configuration says so.
pub proof fn lemma_server_tls_settings(tls: GrpcServerTlsConfig, r: ServerTlsConfig)
    requires
        call_ensures(build_server_tls_config, (&tls,), r),
    ensures
        ({
            let settings = server_tls_settings(r);
            &&& settings.identity == Some((tls.cert_pem@, tls.key_pem@))
            &&& tls.client_ca_cert_pem is None ==> settings.client_ca_root is None
                && !settings.client_auth_optional
            &&& tls.client_ca_cert_pem matches Some(ca) ==> settings.client_ca_root == Some(ca@)
                && settings.client_auth_optional == tls.client_auth_optional
        }),
{
}

/// A server that is bound to an address has that address and is otherwise as one
/// with the default configuration. What is no address is told as a mistake in
/// the configuration, with what was wrong with it.
pub proof fn lemma_bound_server(
    addr: std::result::Result<SocketAddr, String>,
    r: Result<GrpcServerBuilder>,
    config: GrpcServerConfig,
    builder: GrpcServerBuilder,
)
    requires
        call_ensures(GrpcServer::bind, (addr,), r),
        call_ensures(GrpcServer::builder, (config,), builder),
    ensures
        builder.config == config,
        addr is Ok <==> r is Ok,
        r matches Ok(b) ==> b.config.bind_address == addr->Ok_0 && b.config.max_recv_message_size
            == 4194304 && b.config.enable_health_check && !b.config.enable_reflection
            && b.config.tls is None,
        r matches Err(e) ==> (e matches GrpcError::Config(message) && message@
            == "invalid bind address: "@ + addr->Err_0@),
{
}

/// A server with the default configuration listens on port 50051 of every IPv4
/// address in plain text, and a builder holds the configuration it was made with.
pub proof fn lemma_default_server(
    builder: GrpcServerBuilder,
    config: GrpcServerConfig,
    own: GrpcServerBuilder,
)
    requires
        call_ensures(GrpcServer::with_default_config, (), builder),
        call_ensures(GrpcServerBuilder::new, (config,), own),
    ensures
        builder.config.bind_address == (SocketAddr::V4 { ipv4: 0, port: 50051 }),
        builder.config.max_recv_message_size == 4194304,
        builder.config.max_send_message_size == 4194304,
        builder.config.enable_health_check && !builder.config.enable_reflection
            && builder.config.tcp_nodelay,
        builder.config.tls is None && builder.config.concurrency_limit_per_connection is None,
        own.config == config,
{
}

/// With TLS a server is built just where tonic takes the configuration's own TLS
/// settings, on a server that has every other setting: what tonic gives is what is
/// given, and what it fails with is the failure.
pub proof fn lemma_tonic_decides_on_tls(builder: GrpcServerBuilder, r: Result<Server>)
    requires
        call_ensures(GrpcServerBuilder::build_transport, (&builder,), r),
        builder.config.tls is Some,
    ensures
        exists|
            s: Server,
            settings: ServerTlsConfig,
            out: std::result::Result<Server, tonic::transport::Error>,
        |
            {
                &&& #[trigger] is_server_tls_outcome(s, settings, out)
                &&& server_settings(s).tcp_nodelay == builder.config.tcp_nodelay
                &&& server_settings(s).tcp_keepalive == builder.config.tcp_keepalive
                &&& server_settings(s).concurrency_limit_per_connection
                    == builder.config.concurrency_limit_per_connection
                &&& server_tls_settings(settings).identity == Some(
                    (builder.config.tls->0.cert_pem@, builder.config.tls->0.key_pem@),
                )
                &&& out is Ok <==> r is Ok
                &&& out is Ok ==> r->Ok_0 == out->Ok_0
                &&& out is Err ==> r->Err_0 == GrpcError::Transport(out->Err_0)
            },
{
}

} // verus!
