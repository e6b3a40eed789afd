//! gRPC server and client support: configuration, interceptors, middleware
//! and the message framing they share.
//!
//! - `config`, `server` and `client` hold configurations and put them on tonic's
//!   servers and endpoints.
//! - `interceptor` reads and writes the metadata of requests: credentials and
//!   request IDs.
//! - `middleware` decides on timeouts, limits and retries.
//! - `codec`, `compression` and `negotiation` compress messages on the wire.
//! - `recv_limit` refuses messages that are too long, wherever they stand in a
//!   body.
//! - `frame` and `body` are the framing of messages and the frames of bodies.
//! - `buffer`, `headers`, `metadata`, `time` and `transport` state what is relied
//!   on of the crates underneath.
//!
//! What awaits, reads or sends stays with the caller: these modules take plain
//! values and decide.

pub mod body;
pub mod buffer;
pub mod client;
pub mod codec;
pub mod compression;
pub mod config;
pub mod crypto_provider;
pub mod error;
pub mod frame;
pub mod headers;
pub mod interceptor;
pub mod metadata;
pub mod middleware;
pub mod negotiation;
pub mod prelude;
pub mod recv_limit;
pub mod server;
pub mod status;
pub mod text;
pub mod time;
pub mod transport;

pub use client::{GrpcChannel, GrpcClient};
pub use codec::CompressionEncoding;
pub use config::{
    GrpcClientConfig, GrpcClientConfigBuilder, GrpcClientTlsConfig, GrpcServerConfig,
    GrpcServerConfigBuilder, GrpcServerTlsConfig, SocketAddr,
};
pub use error::{GrpcError, Result};
pub use interceptor::{
    AuthInterceptor, LoggingInterceptor, MetricsInterceptor, RequestIdInterceptor,
};
pub use middleware::{
    ConcurrencyLimitMiddleware, GrpcMiddleware, LoadSheddingMiddleware, RateLimitMiddleware,
    RetryMiddleware, TimeoutMiddleware,
};
pub use negotiation::{CompressionClientService, CompressionMiddleware, CompressionService};
pub use server::{GrpcServer, GrpcServerBuilder};
pub use status::{Code, Status};
