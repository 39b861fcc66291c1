//! The staged builder of an accelerator configuration.
//!
//! Each stage is a type of its own that offers the next step and nothing
//! else, so a configuration cannot be had before the cache name, the proxy
//! host, the auth token and the TTL have been given, in that order.

use crate::interceptor::{ProxyInterceptor, ProxyInterceptorView};
use crate::decimal::decimal;
use crate::ttl::{
    duration_millis, saturate_millis, saturated_millis, ttl_header_text, MAX_TTL_MILLIS,
};
use std::time::Duration;
use vstd::prelude::*;
use vstd::string::StringExecFns;

verus! {

/// The proxy endpoint of the cache `cache_name` on the host `host`:
/// `https://{host}/ddb/{cache_name}/cache`.
pub open spec fn proxy_endpoint(host: Seq<char>, cache_name: Seq<char>) -> Seq<char> {
    "https://"@ + host + "/ddb/"@ + cache_name + "/cache"@
}

/// Whether `uri` begins with the scheme of the proxy, `https://`.
pub open spec fn has_https_scheme(uri: Seq<char>) -> bool {
    "https://"@.is_prefix_of(uri)
}

/// What the last builder stage has collected.
pub struct WantsTtlView {
    pub proxy_uri: Seq<char>,
    pub auth_token: Seq<char>,
}

/// What a finished configuration holds. The TTL is in whole milliseconds,
/// at most 2^32 - 1.
pub struct AcceleratorConfigView {
    pub proxy_uri: Seq<char>,
    pub auth_token: Seq<char>,
    pub ttl_millis: nat,
}

/// The stage reached once a cache name is known.
pub open spec fn with_cache_name(cache_name: Seq<char>) -> Seq<char> {
    cache_name
}

/// The stage reached from a cache name once the proxy host is known: the
/// proxy endpoint.
pub open spec fn with_host(cache_name: Seq<char>, host: Seq<char>) -> Seq<char> {
    proxy_endpoint(host, cache_name)
}

/// The stage reached from a proxy endpoint once the auth token is known.
pub open spec fn with_auth_token(proxy_uri: Seq<char>, auth_token: Seq<char>) -> WantsTtlView {
    WantsTtlView { proxy_uri, auth_token }
}

/// The configuration reached from the last stage once the TTL is known: the
/// TTL is taken in whole milliseconds and saturates at 2^32 - 1.
pub open spec fn with_ttl(stage: WantsTtlView, ttl: Duration) -> AcceleratorConfigView {
    AcceleratorConfigView {
        proxy_uri: stage.proxy_uri,
        auth_token: stage.auth_token,
        ttl_millis: saturated_millis(duration_millis(ttl)),
    }
}

/// The interceptor that a configuration stands for: same endpoint, same
/// token, and the TTL in milliseconds written in base 10.
pub open spec fn interceptor_of(config: AcceleratorConfigView) -> ProxyInterceptorView {
    ProxyInterceptorView {
        proxy_uri: config.proxy_uri,
        auth_token: config.auth_token,
        ttl_header: decimal(config.ttl_millis),
    }
}

/// A proxy endpoint is never empty and begins with the `https://` scheme,
/// whatever the host and the cache name are.
pub proof fn lemma_proxy_endpoint_scheme(host: Seq<char>, cache_name: Seq<char>)
    ensures
        has_https_scheme(proxy_endpoint(host, cache_name)),
        proxy_endpoint(host, cache_name).len() > 0,
{
    reveal_strlit("https://");
    let rest = host + "/ddb/"@ + cache_name + "/cache"@;
    assert(proxy_endpoint(host, cache_name) =~= "https://"@ + rest);
}

/// The four steps, taken in order with any cache name, host, token and TTL,
/// give the configuration whose proxy URI is
/// `https://{host}/ddb/{cache_name}/cache`, with that token, and with the
/// TTL in milliseconds, saturated at 2^32 - 1. Its interceptor tells the
/// proxy that TTL in base 10.
pub proof fn lemma_built_configuration(
    cache_name: Seq<char>,
    host: Seq<char>,
    auth_token: Seq<char>,
    ttl: Duration,
)
    ensures
        with_ttl(with_auth_token(with_host(with_cache_name(cache_name), host), auth_token), ttl) == (
        AcceleratorConfigView {
            proxy_uri: proxy_endpoint(host, cache_name),
            auth_token,
            ttl_millis: saturated_millis(duration_millis(ttl)),
        }),
        with_ttl(
            with_auth_token(with_host(with_cache_name(cache_name), host), auth_token),
            ttl,
        ).ttl_millis <= MAX_TTL_MILLIS,
        interceptor_of(
            with_ttl(with_auth_token(with_host(with_cache_name(cache_name), host), auth_token), ttl),
        ) == (ProxyInterceptorView {
            proxy_uri: proxy_endpoint(host, cache_name),
            auth_token,
            ttl_header: ttl_header_text(duration_millis(ttl)),
        }),
{
}

/// A builder of an [`AcceleratorConfig`], at the stage `T`.
pub struct AcceleratorConfigBuilder<T>(T);

impl<T: View> View for AcceleratorConfigBuilder<T> {
    type V = T::V;

    /// What the builder has collected so far: the view of its stage.
    closed spec fn view(&self) -> T::V {
        self.0@
    }
}

/// Builder stage: nothing is known yet, the cache name comes next.
pub struct WantsCacheName;

impl View for WantsCacheName {
    type V = ();

    open spec fn view(&self) -> () {
        ()
    }
}

/// Builder stage: the cache name is known, the proxy host comes next.
pub struct WantsMomentoHost {
    cache_name: String,
}

impl View for WantsMomentoHost {
    type V = Seq<char>;

    /// The cache name.
    closed spec fn view(&self) -> Seq<char> {
        self.cache_name@
    }
}

/// Builder stage: the proxy endpoint is known, the auth token comes next.
pub struct WantsAuthToken {
    uri: String,
}

impl WantsAuthToken {
    #[verifier::type_invariant]
    spec fn well_formed(self) -> bool {
        has_https_scheme(self.uri@)
    }
}

impl View for WantsAuthToken {
    type V = Seq<char>;

    /// The proxy endpoint.
    closed spec fn view(&self) -> Seq<char> {
        self.uri@
    }
}

/// Builder stage: endpoint and auth token are known, the TTL comes next.
pub struct WantsTtl {
    uri: String,
    auth_token: String,
}

impl WantsTtl {
    #[verifier::type_invariant]
    spec fn well_formed(self) -> bool {
        has_https_scheme(self.uri@)
    }
}

impl View for WantsTtl {
    type V = WantsTtlView;

    closed spec fn view(&self) -> WantsTtlView {
        WantsTtlView { proxy_uri: self.uri@, auth_token: self.auth_token@ }
    }
}

/// The configuration of the accelerator: where the proxy is, how to
/// authenticate with it, and for how many milliseconds it keeps what it
/// caches.
pub struct AcceleratorConfig {
    uri: String,
    auth_token: String,
    ttl_millis: u32,
}

impl AcceleratorConfig {
    #[verifier::type_invariant]
    spec fn well_formed(self) -> bool {
        has_https_scheme(self.uri@)
    }
}

impl View for AcceleratorConfig {
    type V = AcceleratorConfigView;

    closed spec fn view(&self) -> AcceleratorConfigView {
        AcceleratorConfigView {
            proxy_uri: self.uri@,
            auth_token: self.auth_token@,
            ttl_millis: self.ttl_millis as nat,
        }
    }
}

/// Starts building an accelerator configuration.
pub fn accelerator_config() -> (builder: AcceleratorConfigBuilder<WantsCacheName>)
    ensures
        builder@ == (),
{
    AcceleratorConfigBuilder(WantsCacheName)
}

impl AcceleratorConfigBuilder<WantsCacheName> {
    /// Sets the name of the Momento cache that will hold the DynamoDB items.
    pub fn cache_name(self, cache_name: &str) -> (next: AcceleratorConfigBuilder<WantsMomentoHost>)
        ensures
            next@ == with_cache_name(cache_name@),
    {
        AcceleratorConfigBuilder(WantsMomentoHost { cache_name: String::from_str(cache_name) })
    }
}

impl AcceleratorConfigBuilder<WantsMomentoHost> {
    /// Sets the host name of the Momento accelerator, such as
    /// `api.cache.cell-us-west-2-1.prod.a.momentohq.com`, and with it the
    /// proxy endpoint.
    pub fn momento_hostname(self, host: &str) -> (next: AcceleratorConfigBuilder<WantsAuthToken>)
        ensures
            next@ == with_host(self@, host@),
    {
        let mut uri = String::from_str("https://");
        uri.append(host);
        uri.append("/ddb/");
        uri.append(self.0.cache_name.as_str());
        uri.append("/cache");
        proof {
            lemma_proxy_endpoint_scheme(host@, self@);
        }
        AcceleratorConfigBuilder(WantsAuthToken { uri })
    }
}

impl AcceleratorConfigBuilder<WantsAuthToken> {
    /// Sets the Momento auth token.
    pub fn auth_token(self, auth_token: &str) -> (next: AcceleratorConfigBuilder<WantsTtl>)
        ensures
            next@ == with_auth_token(self@, auth_token@),
    {
        proof {
            use_type_invariant(&self.0);
        }
        AcceleratorConfigBuilder(
            WantsTtl { uri: self.0.uri, auth_token: String::from_str(auth_token) },
        )
    }
}

impl AcceleratorConfigBuilder<WantsTtl> {
    /// Sets how long the proxy keeps a cached item, and finishes the
    /// configuration. The TTL is kept in whole milliseconds; one beyond
    /// 2^32 - 1 milliseconds is no error and is kept as 2^32 - 1.
    pub fn ttl(self, ttl: Duration) -> (config: AcceleratorConfig)
        ensures
            config@ == with_ttl(self@, ttl),
            config@.ttl_millis == saturated_millis(duration_millis(ttl)),
            config@.ttl_millis <= MAX_TTL_MILLIS,
    {
        proof {
            use_type_invariant(&self.0);
        }
        let ttl_millis = saturate_millis(ttl.as_millis());
        AcceleratorConfig { uri: self.0.uri, auth_token: self.0.auth_token, ttl_millis }
    }
}

impl AcceleratorConfig {
    /// The proxy endpoint that requests are sent to.
    pub fn proxy_uri(&self) -> (uri: &str)
        ensures
            uri@ == self@.proxy_uri,
            has_https_scheme(uri@),
            uri@.len() > 0,
    {
        proof {
            use_type_invariant(self);
            reveal_strlit("https://");
        }
        self.uri.as_str()
    }

    /// The auth token that the proxy is given.
    pub fn auth_token(&self) -> (token: &str)
        ensures
            token@ == self@.auth_token,
    {
        self.auth_token.as_str()
    }

    /// For how many milliseconds the proxy keeps a cached item.
    pub fn ttl_millis(&self) -> (millis: u32)
        ensures
            millis == self@.ttl_millis,
    {
        self.ttl_millis
    }

    /// Turns the configuration into the interceptor that it stands for.
    pub fn into_interceptor(self) -> (interceptor: ProxyInterceptor)
        ensures
            interceptor@ == interceptor_of(self@),
    {
        ProxyInterceptor::with_ttl_millis(self.uri, self.auth_token, self.ttl_millis)
    }
}

} // verus!
