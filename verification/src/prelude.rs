//! Prelude for common imports.

pub use crate::client::{GrpcChannel, GrpcClient};
pub use crate::codec::CompressionEncoding;
pub use crate::config::{
    GrpcClientConfig, GrpcClientTlsConfig, GrpcServerConfig, GrpcServerTlsConfig,
};
pub use crate::error::{GrpcError, Result};
pub use crate::interceptor::{AuthInterceptor, LoggingInterceptor, MetricsInterceptor};
pub use crate::middleware::{
    ConcurrencyLimitMiddleware, GrpcMiddleware, LoadSheddingMiddleware, RateLimitMiddleware,
    RetryMiddleware, TimeoutMiddleware,
};
pub use crate::negotiation::CompressionMiddleware;
pub use crate::server::{GrpcServer, GrpcServerBuilder};
pub use crate::status::{Code, Status};
