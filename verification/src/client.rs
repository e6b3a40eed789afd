//! gRPC client: endpoints and channels.

use crate::config::{GrpcClientConfig, GrpcClientTlsConfig};
use crate::crypto_provider::ensure_installed;
use crate::error::{error_text, transport_result, GrpcError, Result};
use crate::time::nanos;
use crate::transport::{
    client_tls_ca, client_tls_domain, client_tls_identity, client_tls_settings,
    endpoint_connection_window, endpoint_from_shared, endpoint_settings, endpoint_stream_window,
    endpoint_target, is_endpoint_text, tls_failure, ClientTlsSettings, EndpointSettings,
    EndpointTarget,
};
use std::time::Duration;
use tonic::transport::{Channel, ClientTlsConfig, Endpoint};
use vstd::prelude::*;

verus! {

/// The second value where there is one, or else the first.
pub open spec fn or_set<A>(old_value: Option<A>, new_value: Option<A>) -> Option<A> {
    if new_value is Some {
        new_value
    } else {
        old_value
    }
}

/// Whether an endpoint holds the settings of a configuration, and for the rest
/// those that it held before. TLS is left aside.
pub open spec fn is_configured(
    before: EndpointSettings,
    after: EndpointSettings,
    config: GrpcClientConfig,
) -> bool {
    &&& after == (EndpointSettings {
        target: before.target,
        timeout: Some(config.timeout),
        connect_timeout: Some(config.connect_timeout),
        tcp_nodelay: config.tcp_nodelay,
        tcp_keepalive: config.tcp_keepalive,
        http2_keep_alive_interval: or_set(
            before.http2_keep_alive_interval,
            config.http2_keepalive_interval,
        ),
        keep_alive_timeout: or_set(before.keep_alive_timeout, config.http2_keepalive_timeout),
        initial_connection_window_size: or_set(
            before.initial_connection_window_size,
            config.initial_connection_window_size,
        ),
        initial_stream_window_size: or_set(
            before.initial_stream_window_size,
            config.initial_stream_window_size,
        ),
        concurrency_limit: or_set(before.concurrency_limit, config.concurrency_limit),
        rate_limit: after.rate_limit,
        tls: after.tls,
    })
    &&& match config.rate_limit {
        Some(rps) => after.rate_limit matches Some((limit, per)) && limit == rps && nanos(per)
            == 1_000_000_000,
        None => after.rate_limit == before.rate_limit,
    }
}

/// The TLS settings for a configuration. A certificate and a key make an
/// identity only together.
pub open spec fn tls_settings(tls: GrpcClientTlsConfig) -> ClientTlsSettings {
    ClientTlsSettings {
        ca_certificates: match tls@.ca_cert_pem {
            Some(pem) => seq![pem],
            None => Seq::empty(),
        },
        domain_name: tls@.domain_name,
        identity: match (tls@.client_cert_pem, tls@.client_key_pem) {
            (Some(cert), Some(key)) => Some((cert, key)),
            _ => None,
        },
    }
}

/// The TLS settings that an endpoint is to hold: those of the configuration, or
/// what it held where the configuration has none.
pub open spec fn expected_tls(
    before: Option<ClientTlsSettings>,
    tls: Option<GrpcClientTlsConfig>,
) -> Option<ClientTlsSettings> {
    match tls {
        Some(t) => Some(tls_settings(t)),
        None => before,
    }
}

/// Whether a result is what tonic made of the TLS settings of a configuration on
/// an endpoint: the endpoint that it gave, or its failure.
pub open spec fn is_tls_outcome(
    endpoint: Endpoint,
    tls: Option<GrpcClientTlsConfig>,
    r: Result<Endpoint>,
) -> bool {
    tls is Some && exists|
        settings: ClientTlsConfig,
        out: std::result::Result<Endpoint, tonic::transport::Error>,
    |
        #[trigger] call_ensures(Endpoint::tls_config, (endpoint, settings), out)
            && client_tls_settings(settings) == tls_settings(tls->0) && r == (match out {
            Ok(e) => Ok::<Endpoint, GrpcError>(e),
            Err(e) => Err(GrpcError::Transport(e)),
        })
}

/// Puts every setting of a configuration on an endpoint, TLS last. Every way of
/// connecting goes through here.
pub fn configure_endpoint(endpoint: Endpoint, config: &GrpcClientConfig) -> (r: Result<Endpoint>)
    ensures
        r matches Ok(e) ==> is_configured(
            endpoint_settings(endpoint),
            endpoint_settings(e),
            *config,
        ) && endpoint_settings(e).tls == expected_tls(endpoint_settings(endpoint).tls, config.tls),
        config.tls is None ==> r is Ok,
        config.tls is Some && endpoint_settings(endpoint).target is Socket ==> r is Err,
        r matches Err(e) ==> (e matches GrpcError::Transport(t) && error_text(t) == tls_failure(
            endpoint_settings(endpoint).target,
        )),
        config.tls is Some ==> exists|f: Endpoint|
            #![trigger endpoint_settings(f)]
            is_configured(endpoint_settings(endpoint), endpoint_settings(f), *config)
                && endpoint_settings(f).tls == endpoint_settings(endpoint).tls && is_tls_outcome(
                f,
                config.tls,
                r,
            ),
{
    let ghost before = endpoint_settings(endpoint);
    let mut endpoint = endpoint.timeout(config.timeout).connect_timeout(
        config.connect_timeout,
    ).tcp_nodelay(config.tcp_nodelay).tcp_keepalive(config.tcp_keepalive);
    if let Some(interval) = config.http2_keepalive_interval {
        endpoint = endpoint.http2_keep_alive_interval(interval);
    }
    if let Some(timeout) = config.http2_keepalive_timeout {
        endpoint = endpoint.keep_alive_timeout(timeout);
    }
    if let Some(window) = config.initial_connection_window_size {
        endpoint = endpoint_connection_window(endpoint, window);
    }
    if let Some(window) = config.initial_stream_window_size {
        endpoint = endpoint_stream_window(endpoint, window);
    }
    if let Some(limit) = config.concurrency_limit {
        endpoint = endpoint.concurrency_limit(limit);
    }
    if let Some(rps) = config.rate_limit {
        endpoint = endpoint.rate_limit(rps, Duration::from_secs(1));
    }
    assert(is_configured(before, endpoint_settings(endpoint), *config));
    apply_tls(endpoint, config)
}

/// tonic's TLS configuration for a configuration.
pub fn build_client_tls_config(tls: &GrpcClientTlsConfig) -> (r: ClientTlsConfig)
    ensures
        client_tls_settings(r) == tls_settings(*tls),
{
    let mut tls_config = ClientTlsConfig::new();
    if let Some(ca) = &tls.ca_cert_pem {
        tls_config = client_tls_ca(tls_config, ca.as_slice());
    }
    if let Some(domain) = &tls.domain_name {
        tls_config = client_tls_domain(tls_config, domain.clone());
    }
    if let (Some(cert), Some(key)) = (&tls.client_cert_pem, &tls.client_key_pem) {
        tls_config = client_tls_identity(tls_config, cert.as_slice(), key.as_slice());
    }
    assert(client_tls_settings(tls_config) =~= tls_settings(*tls));
    tls_config
}

/// Puts the TLS settings of a configuration on an endpoint, if it has any.
pub fn apply_tls(endpoint: Endpoint, config: &GrpcClientConfig) -> (r: Result<Endpoint>)
    ensures
        config.tls is None ==> r == Ok::<Endpoint, GrpcError>(endpoint),
        config.tls matches Some(tls) ==> match r {
            Ok(e) => endpoint_settings(e) == (EndpointSettings {
                tls: Some(tls_settings(tls)),
                ..endpoint_settings(endpoint)
            }),
            Err(e) => e matches GrpcError::Transport(t) && error_text(t) == tls_failure(
                endpoint_settings(endpoint).target,
            ),
        },
        config.tls is Some && endpoint_settings(endpoint).target is Socket ==> r is Err,
        config.tls is Some ==> is_tls_outcome(endpoint, config.tls, r),
{
    match &config.tls {
        None => Ok(endpoint),
        Some(tls) => {
            ensure_installed();
            let settings = build_client_tls_config(tls);
            let out = endpoint.tls_config(settings);
            assert(call_ensures(Endpoint::tls_config, (endpoint, settings), out));
            transport_result(out)
        },
    }
}

/// Whether an endpoint is one for a target with every setting of a
/// configuration, TLS included.
pub open spec fn is_endpoint_for(
    endpoint: Endpoint,
    target: EndpointTarget,
    config: GrpcClientConfig,
) -> bool {
    &&& is_configured(EndpointSettings::initial(target), endpoint_settings(endpoint), config)
    &&& endpoint_settings(endpoint).tls == expected_tls(None, config.tls)
}

/// The endpoint for a URL, with every setting of a configuration.
pub fn endpoint_for(url: String, config: &GrpcClientConfig) -> (r: Result<Endpoint>)
    ensures
        match endpoint_target(url@) {
            None => r matches Err(GrpcError::Config(msg)) && msg@ == "invalid URI"@,
            Some(target) => {
                &&& r matches Ok(e) ==> is_endpoint_for(e, target, *config)
                &&& r matches Err(e) ==> config.tls is Some && (e matches GrpcError::Transport(t)
                    && error_text(t) == tls_failure(target))
                &&& config.tls is Some && target is Socket ==> r is Err
                &&& config.tls is Some ==> exists|f: Endpoint|
                    #![trigger endpoint_settings(f)]
                    is_configured(
                        EndpointSettings::initial(target),
                        endpoint_settings(f),
                        *config,
                    ) && endpoint_settings(f).tls is None && is_tls_outcome(f, config.tls, r)
            },
        },
{
    match endpoint_from_shared(url) {
        Ok(endpoint) => configure_endpoint(endpoint, config),
        Err(message) => Err(GrpcError::Config(message)),
    }
}

/// Whether endpoints can be made from the first `n` of several URLs.
pub open spec fn are_endpoint_texts(urls: Seq<String>, n: int) -> bool {
    forall|k: int| 0 <= k < n ==> is_endpoint_text((#[trigger] urls[k])@)
}

/// The endpoints for several URLs, each with every setting of a configuration.
/// The first one that fails decides.
pub fn endpoints_for(urls: Vec<String>, config: &GrpcClientConfig) -> (r: Result<Vec<Endpoint>>)
    ensures
        match r {
            Ok(endpoints) => endpoints@.len() == urls@.len() && forall|i: int|
                0 <= i < urls@.len() ==> (endpoint_target((#[trigger] urls@[i])@) matches Some(
                    target,
                ) && is_endpoint_for(endpoints@[i], target, *config) && !(config.tls is Some
                    && target is Socket)),
            Err(e) => {
                &&& e is Config || (e is Transport && config.tls is Some)
                &&& e matches GrpcError::Config(msg) ==> msg@ == "invalid URI"@ && exists|i: int|
                    0 <= i < urls@.len() && !is_endpoint_text((#[trigger] urls@[i])@)
                        && are_endpoint_texts(urls@, i)
                &&& e matches GrpcError::Transport(t) ==> exists|i: int|
                    0 <= i < urls@.len() && are_endpoint_texts(urls@, i) && (endpoint_target(
                        (#[trigger] urls@[i])@,
                    ) matches Some(target) && error_text(t) == tls_failure(target))
            },
        },
{
    let mut endpoints: Vec<Endpoint> = Vec::new();
    let mut i: usize = 0;
    while i < urls.len()
        invariant
            i <= urls@.len(),
            endpoints@.len() == i,
            forall|k: int|
                0 <= k < i ==> (endpoint_target((#[trigger] urls@[k])@) matches Some(target)
                    && is_endpoint_for(endpoints@[k], target, *config) && !(config.tls is Some
                    && target is Socket)),
        decreases urls@.len() - i,
    {
        let url = urls[i].clone();
        assert(url@ == urls@[i as int]@);
        match endpoint_for(url, config) {
            Ok(endpoint) => endpoints.push(endpoint),
            Err(e) => {
                assert(are_endpoint_texts(urls@, i as int));
                return Err(e);
            },
        }
        i = i + 1;
    }
    Ok(endpoints)
}

/// gRPC channel wrapper with configuration.
pub struct GrpcChannel {
    /// The channel.
    pub inner: Channel,
    /// The configuration that it was made with.
    pub config: GrpcClientConfig,
}

impl GrpcChannel {
    /// Get the inner tonic channel.
    pub fn inner(&self) -> (r: &Channel)
        ensures
            *r == self.inner,
    {
        &self.inner
    }

    /// Get the configuration.
    pub fn config(&self) -> (r: &GrpcClientConfig)
        ensures
            *r == self.config,
    {
        &self.config
    }
}

impl Clone for GrpcChannel {
    fn clone(&self) -> (r: Self)
        ensures
            cloned(self.inner, r.inner),
            cloned(self.config, r.config),
    {
        GrpcChannel { inner: self.inner.clone(), config: self.config.clone() }
    }
}

impl std::ops::Deref for GrpcChannel {
    type Target = Channel;

    fn deref(&self) -> (r: &Channel)
        ensures
            *r == self.inner,
    {
        &self.inner
    }
}

/// gRPC client builder and connector.
pub struct GrpcClient;

/// Each setting of a configured endpoint is the configuration's own: the request
/// timeout is its `timeout` and the connect timeout its `connect_timeout`, and so
/// on. What the configuration leaves open stays as it was, and so does what the
/// endpoint connects to.
pub proof fn lemma_each_setting_is_its_own(
    endpoint: Endpoint,
    config: GrpcClientConfig,
    configured: Endpoint,
)
    requires
        call_ensures(
            configure_endpoint,
            (endpoint, &config),
            Ok::<Endpoint, GrpcError>(configured),
        ),
    ensures
        ({
            let before = endpoint_settings(endpoint);
            let after = endpoint_settings(configured);
            &&& after.target == before.target
            &&& after.timeout == Some(config.timeout)
            &&& after.connect_timeout == Some(config.connect_timeout)
            &&& after.tcp_nodelay == config.tcp_nodelay
            &&& after.tcp_keepalive == config.tcp_keepalive
            &&& config.http2_keepalive_interval is Some ==> after.http2_keep_alive_interval
                == config.http2_keepalive_interval
            &&& config.http2_keepalive_interval is None ==> after.http2_keep_alive_interval
                == before.http2_keep_alive_interval
            &&& config.http2_keepalive_timeout is Some ==> after.keep_alive_timeout
                == config.http2_keepalive_timeout
            &&& config.http2_keepalive_timeout is None ==> after.keep_alive_timeout
                == before.keep_alive_timeout
            &&& config.initial_connection_window_size is Some
                ==> after.initial_connection_window_size == config.initial_connection_window_size
            &&& config.initial_connection_window_size is None
                ==> after.initial_connection_window_size == before.initial_connection_window_size
            &&& config.initial_stream_window_size is Some ==> after.initial_stream_window_size
                == config.initial_stream_window_size
            &&& config.initial_stream_window_size is None ==> after.initial_stream_window_size
                == before.initial_stream_window_size
            &&& config.concurrency_limit is Some ==> after.concurrency_limit
                == config.concurrency_limit
            &&& config.concurrency_limit is None ==> after.concurrency_limit
                == before.concurrency_limit
            &&& config.rate_limit is None ==> after.rate_limit == before.rate_limit
            &&& config.rate_limit matches Some(rps) ==> (after.rate_limit matches Some(rate)
                && rate.0 == rps && nanos(rate.1) == 1_000_000_000)
            &&& config.tls is None ==> after.tls == before.tls
            &&& config.tls is Some ==> after.tls is Some
        }),
{
}

/// Two configurations with the same timeout give endpoints with the same request
/// timeout, and ones with different timeouts give different ones, whatever their
/// other settings are. The same holds of the connect timeout.
pub proof fn lemma_timeouts_are_told_apart(
    endpoint: Endpoint,
    one: GrpcClientConfig,
    other: GrpcClientConfig,
    first: Endpoint,
    second: Endpoint,
)
    requires
        call_ensures(configure_endpoint, (endpoint, &one), Ok::<Endpoint, GrpcError>(first)),
        call_ensures(configure_endpoint, (endpoint, &other), Ok::<Endpoint, GrpcError>(second)),
    ensures
        one.timeout == other.timeout <==> endpoint_settings(first).timeout == endpoint_settings(
            second,
        ).timeout,
        one.connect_timeout == other.connect_timeout <==> endpoint_settings(first).connect_timeout
            == endpoint_settings(second).connect_timeout,
{
}

/// Without TLS an endpoint is always configured. With it, a failure is one of
/// the transport, and a Unix socket always fails.
pub proof fn lemma_only_tls_fails(
    endpoint: Endpoint,
    config: GrpcClientConfig,
    r: Result<Endpoint>,
)
    requires
        call_ensures(configure_endpoint, (endpoint, &config), r),
    ensures
        config.tls is None ==> r is Ok,
        r matches Err(e) ==> e is Transport,
        config.tls is Some && endpoint_settings(endpoint).target is Socket ==> r is Err,
{
}

/// The TLS settings of a client are those of its configuration: the CA where
/// there is one, the domain, and an identity where there are both a certificate
/// and a key.
pub proof fn lemma_client_tls_settings(tls: GrpcClientTlsConfig, r: ClientTlsConfig)
    requires
        call_ensures(build_client_tls_config, (&tls,), r),
    ensures
        ({
            let settings = client_tls_settings(r);
            &&& tls.ca_cert_pem is None ==> settings.ca_certificates.len() == 0
            &&& tls.ca_cert_pem matches Some(ca) ==> settings.ca_certificates.len() == 1
                && settings.ca_certificates[0] == ca@
            &&& tls.domain_name is None ==> settings.domain_name is None
            &&& tls.domain_name matches Some(domain) ==> settings.domain_name == Some(domain@)
            &&& settings.identity is Some <==> tls.client_cert_pem is Some
                && tls.client_key_pem is Some
            &&& settings.identity matches Some(identity) ==> identity.0
                == tls.client_cert_pem->0@ && identity.1 == tls.client_key_pem->0@
        }),
{
}

/// An endpoint for a URL connects there and holds the settings of the
/// configuration, its TLS settings among them. A URL that is none is told as a
/// mistake in the configuration, whatever the rest of it.
pub proof fn lemma_endpoint_for_a_url(
    url: String,
    config: GrpcClientConfig,
    r: Result<Endpoint>,
)
    requires
        call_ensures(endpoint_for, (url, &config), r),
    ensures
        !is_endpoint_text(url@) ==> (r matches Err(e) && e is Config),
        is_endpoint_text(url@) && config.tls is None ==> r is Ok,
        r matches Ok(e) ==> {
            let settings = endpoint_settings(e);
            &&& endpoint_target(url@) == Some(settings.target)
            &&& settings.timeout == Some(config.timeout)
            &&& settings.connect_timeout == Some(config.connect_timeout)
            &&& settings.tcp_nodelay == config.tcp_nodelay
            &&& settings.tcp_keepalive == config.tcp_keepalive
            &&& settings.http2_keep_alive_interval == config.http2_keepalive_interval
            &&& settings.keep_alive_timeout == config.http2_keepalive_timeout
            &&& settings.initial_connection_window_size == config.initial_connection_window_size
            &&& settings.initial_stream_window_size == config.initial_stream_window_size
            &&& settings.concurrency_limit == config.concurrency_limit
            &&& settings.rate_limit is Some <==> config.rate_limit is Some
            &&& settings.rate_limit matches Some(rate) ==> config.rate_limit == Some(rate.0)
                && nanos(rate.1) == 1_000_000_000
            &&& settings.tls is Some <==> config.tls is Some
            &&& settings.tls matches Some(tls) ==> {
                let own = config.tls->0;
                &&& own.ca_cert_pem is None ==> tls.ca_certificates.len() == 0
                &&& own.ca_cert_pem matches Some(ca) ==> tls.ca_certificates.len() == 1
                    && tls.ca_certificates[0] == ca@
                &&& own.domain_name is None ==> tls.domain_name is None
                &&& own.domain_name matches Some(domain) ==> tls.domain_name == Some(domain@)
                &&& tls.identity is Some <==> own.client_cert_pem is Some
                    && own.client_key_pem is Some
                &&& tls.identity matches Some(identity) ==> identity.0
                    == own.client_cert_pem->0@ && identity.1 == own.client_key_pem->0@
            }
        },
{
}

/// Endpoints are made for several URLs one for each, in their order, just as each
/// is made by itself. Without TLS they are made just where every URL is one.
pub proof fn lemma_endpoints_for_urls(
    urls: Vec<String>,
    config: GrpcClientConfig,
    r: Result<Vec<Endpoint>>,
)
    requires
        call_ensures(endpoints_for, (urls, &config), r),
    ensures
        config.tls is None ==> (r is Ok <==> forall|i: int|
            0 <= i < urls@.len() ==> is_endpoint_text((#[trigger] urls@[i])@)),
        r matches Ok(endpoints) ==> endpoints@.len() == urls@.len() && forall|i: int|
            0 <= i < urls@.len() ==> endpoint_target((#[trigger] urls@[i])@) == Some(
                endpoint_settings(endpoints@[i]).target,
            ) && endpoint_settings(endpoints@[i]).timeout == Some(config.timeout)
                && endpoint_settings(endpoints@[i]).connect_timeout == Some(
                config.connect_timeout,
            ) && endpoint_settings(endpoints@[i]).tcp_nodelay == config.tcp_nodelay
                && endpoint_settings(endpoints@[i]).tcp_keepalive == config.tcp_keepalive
                && endpoint_settings(endpoints@[i]).concurrency_limit == config.concurrency_limit
                && (endpoint_settings(endpoints@[i]).tls is Some <==> config.tls is Some),
{
}

/// TLS settings are put on an endpoint just where the configuration has some, and
/// nothing else changes. A Unix socket is told apart from other failures.
pub proof fn lemma_tls_is_applied(
    endpoint: Endpoint,
    config: GrpcClientConfig,
    tls: ClientTlsConfig,
    r: Result<Endpoint>,
)
    requires
        call_ensures(apply_tls, (endpoint, &config), r),
        config.tls matches Some(own) ==> call_ensures(build_client_tls_config, (&own,), tls),
    ensures
        config.tls is None ==> r == Ok::<Endpoint, GrpcError>(endpoint),
        config.tls is Some && r is Ok ==> {
            let after = endpoint_settings(r->Ok_0);
            &&& after.tls == Some(client_tls_settings(tls))
            &&& after == (EndpointSettings { tls: after.tls, ..endpoint_settings(endpoint) })
        },
        r matches Err(e) ==> (e matches GrpcError::Transport(t) && error_text(t) == (
        if endpoint_settings(endpoint).target is Socket {
            "cannot apply TLS config for unix domain socket"@
        } else {
            "transport error"@
        })),
        config.tls is Some && endpoint_settings(endpoint).target is Socket ==> r is Err,
{
}

/// Endpoints that are not made fail for the first URL that fails: as a mistake in
/// the configuration just where that is no URL, and otherwise in the transport.
pub proof fn lemma_first_failure_decides(
    urls: Vec<String>,
    config: GrpcClientConfig,
    r: Result<Vec<Endpoint>>,
)
    requires
        call_ensures(endpoints_for, (urls, &config), r),
    ensures
        r matches Err(e) ==> exists|i: int|
            0 <= i < urls@.len() && (forall|k: int|
                0 <= k < i ==> is_endpoint_text((#[trigger] urls@[k])@)) && (e is Config
                <==> !is_endpoint_text((#[trigger] urls@[i])@)) && (e is Transport
                <==> is_endpoint_text(urls@[i]@)),
        r matches Err(GrpcError::Config(m)) ==> m@ == "invalid URI"@,
{
}

/// A channel tells the channel and the configuration that it holds.
pub proof fn lemma_channel_tells_what_it_holds(
    channel: GrpcChannel,
    inner: &Channel,
    config: &GrpcClientConfig,
    target: &Channel,
    copy: GrpcChannel,
)
    requires
        call_ensures(GrpcChannel::inner, (&channel,), inner),
        call_ensures(GrpcChannel::config, (&channel,), config),
        call_ensures(<GrpcChannel as std::ops::Deref>::deref, (&channel,), target),
        call_ensures(<GrpcChannel as Clone>::clone, (&channel,), copy),
    ensures
        *inner == channel.inner,
        *config == channel.config,
        *target == channel.inner,
        copy.config.endpoint@ == channel.config.endpoint@ && copy.config.timeout
            == channel.config.timeout && copy.config.retry_enabled == channel.config.retry_enabled
            && copy.config.max_retry_attempts == channel.config.max_retry_attempts,
{
}

/// With TLS an endpoint is made just where tonic takes the configuration's own
/// TLS settings, on an endpoint that has every other setting: what tonic gives is
/// what is given, and what it fails with is the failure.
pub proof fn lemma_tonic_decides_on_tls(
    endpoint: Endpoint,
    config: GrpcClientConfig,
    r: Result<Endpoint>,
)
    requires
        call_ensures(configure_endpoint, (endpoint, &config), r),
        config.tls is Some,
    ensures
        exists|
            e: Endpoint,
            settings: ClientTlsConfig,
            out: std::result::Result<Endpoint, tonic::transport::Error>,
        |
            {
                &&& #[trigger] call_ensures(Endpoint::tls_config, (e, settings), out)
                &&& endpoint_settings(e).target == endpoint_settings(endpoint).target
                &&& endpoint_settings(e).timeout == Some(config.timeout)
                &&& endpoint_settings(e).connect_timeout == Some(config.connect_timeout)
                &&& client_tls_settings(settings).domain_name == (match config.tls->0.domain_name {
                    Some(domain) => Some(domain@),
                    None => None,
                })
                &&& out is Ok <==> r is Ok
                &&& out is Ok ==> r->Ok_0 == out->Ok_0
                &&& out is Err ==> r->Err_0 == GrpcError::Transport(out->Err_0)
            },
{
    let tls = config.tls->0;
    let e = choose|e: Endpoint|
        #![trigger endpoint_settings(e)]
        is_configured(endpoint_settings(endpoint), endpoint_settings(e), config)
            && endpoint_settings(e).tls == endpoint_settings(endpoint).tls && is_tls_outcome(
            e,
            config.tls,
            r,
        );
    let (settings, out) = choose|
        settings: ClientTlsConfig,
        out: std::result::Result<Endpoint, tonic::transport::Error>,
    |
        #[trigger] call_ensures(Endpoint::tls_config, (e, settings), out) && client_tls_settings(
            settings,
        ) == tls_settings(tls) && r == (match out {
            Ok(e) => Ok::<Endpoint, GrpcError>(e),
            Err(e) => Err(GrpcError::Transport(e)),
        });
    assert(call_ensures(Endpoint::tls_config, (e, settings), out));
}

} // verus!
