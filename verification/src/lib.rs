//! Routes signed DynamoDB requests through a Momento cache proxy.
//!
//! A staged builder collects the cache name, the proxy host, the auth token
//! and the cache TTL, in that order, and yields an [`AcceleratorConfig`]. The
//! configuration becomes a [`ProxyInterceptor`], which rewrites an already
//! signed request so that it reaches the proxy: the request's target becomes
//! the proxy endpoint, and three headers carry the original target, the auth
//! token and the TTL in milliseconds.

pub mod builder;
pub mod decimal;
pub mod header;
pub mod interceptor;
pub mod request;
pub mod ttl;

pub use builder::{
    accelerator_config, AcceleratorConfig, AcceleratorConfigBuilder, WantsAuthToken,
    WantsCacheName, WantsMomentoHost, WantsTtl,
};
pub use interceptor::{InterceptError, ProxyInterceptor};
