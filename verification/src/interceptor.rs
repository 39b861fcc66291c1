//! The interceptor: rewrites a signed request so that it goes to the proxy.

use crate::decimal::{decimal, decimal_value, lemma_decimal_value, render_decimal};
use crate::header::{
    check_header_value, header_values, is_proxy_header, lemma_numeral_is_header_value,
    lemma_proxy_header_names, sole_value, AUTH_HEADER, TTL_HEADER, URI_HEADER,
};
use crate::request::{
    header_count, insert_header, is_header_value, request_body, request_header_count,
    request_method, request_uri, set_target, target, uri_parses, HEADER_LIMIT,
};
use crate::ttl::{duration_millis, render_ttl, saturated_millis, ttl_header_text, MAX_TTL_MILLIS};
use std::time::Duration;
use vstd::prelude::*;

verus! {

/// Why a request was not rewritten.
#[derive(Debug, Clone, Copy, PartialEq, Eq, Structural)]
pub enum InterceptError {
    /// The original target of the request, or the auth token, cannot stand in
    /// a header.
    InvalidHeaderValue,
    /// The request has no room for three more headers.
    TooManyHeaders,
    /// The proxy URI is not a URI.
    InvalidProxyUri,
}

impl InterceptError {
    /// A sentence that says what went wrong.
    pub fn message(&self) -> (text: &'static str)
        ensures
            text@ == match *self {
                InterceptError::InvalidHeaderValue => "a proxy header value is not a valid header value"@,
                InterceptError::TooManyHeaders => "the request has too many headers"@,
                InterceptError::InvalidProxyUri => "must be a valid uri"@,
            },
    {
        match self {
            InterceptError::InvalidHeaderValue => "a proxy header value is not a valid header value",
            InterceptError::TooManyHeaders => "the request has too many headers",
            InterceptError::InvalidProxyUri => "must be a valid uri",
        }
    }
}

/// Whether `text` is the base-10 numeral of a TTL that the proxy can be told.
pub open spec fn is_ttl_numeral(text: Seq<char>) -> bool {
    &&& decimal_value(text) <= MAX_TTL_MILLIS
    &&& text == decimal(decimal_value(text))
}

/// What an interceptor holds.
pub struct ProxyInterceptorView {
    pub proxy_uri: Seq<char>,
    pub auth_token: Seq<char>,
    pub ttl_header: Seq<char>,
}

/// Sends signed requests to a Momento proxy instead of their own target.
///
/// The interceptor never changes once made; what it does to one request
/// depends on that request alone.
pub struct ProxyInterceptor {
    proxy_uri: String,
    auth_token: String,
    ttl: String,
}

impl View for ProxyInterceptor {
    type V = ProxyInterceptorView;

    closed spec fn view(&self) -> ProxyInterceptorView {
        ProxyInterceptorView {
            proxy_uri: self.proxy_uri@,
            auth_token: self.auth_token@,
            ttl_header: self.ttl@,
        }
    }
}

/// The TTL header of any TTL is the numeral of a TTL that the proxy can be
/// told, and a header value.
pub proof fn lemma_ttl_header_text(millis: nat)
    ensures
        is_ttl_numeral(ttl_header_text(millis)),
        decimal_value(ttl_header_text(millis)) == saturated_millis(millis),
        is_header_value(ttl_header_text(millis)),
{
    lemma_decimal_value(saturated_millis(millis));
    lemma_numeral_is_header_value(saturated_millis(millis));
}

impl ProxyInterceptor {
    #[verifier::type_invariant]
    spec fn well_formed(self) -> bool {
        is_ttl_numeral(self.ttl@)
    }

    /// Makes the interceptor for the proxy at `proxy_uri`, with the TTL
    /// rendered once for all requests.
    pub fn new(proxy_uri: String, auth_token: String, ttl: Duration) -> (interceptor: Self)
        ensures
            interceptor@ == (ProxyInterceptorView {
                proxy_uri: proxy_uri@,
                auth_token: auth_token@,
                ttl_header: ttl_header_text(duration_millis(ttl)),
            }),
    {
        let ttl_header = render_ttl(ttl);
        proof {
            lemma_ttl_header_text(duration_millis(ttl));
        }
        ProxyInterceptor { proxy_uri, auth_token, ttl: ttl_header }
    }

    /// Makes the interceptor for the proxy at `proxy_uri`, for a TTL of
    /// `ttl_millis` milliseconds.
    pub fn with_ttl_millis(proxy_uri: String, auth_token: String, ttl_millis: u32) -> (interceptor:
        Self)
        ensures
            interceptor@ == (ProxyInterceptorView {
                proxy_uri: proxy_uri@,
                auth_token: auth_token@,
                ttl_header: decimal(ttl_millis as nat),
            }),
    {
        let ttl_header = render_decimal(ttl_millis);
        proof {
            lemma_decimal_value(ttl_millis as nat);
        }
        ProxyInterceptor { proxy_uri, auth_token, ttl: ttl_header }
    }

    /// The name under which the interceptor is known to the client.
    pub fn name(&self) -> (name: &'static str)
        ensures
            name@ == "MomentoProxy"@,
    {
        "MomentoProxy"
    }

    /// The proxy endpoint that requests are sent to.
    pub fn proxy_uri(&self) -> (uri: &str)
        ensures
            uri@ == self@.proxy_uri,
    {
        self.proxy_uri.as_str()
    }

    /// The auth token that the proxy is given.
    pub fn auth_token(&self) -> (token: &str)
        ensures
            token@ == self@.auth_token,
    {
        self.auth_token.as_str()
    }

    /// The TTL header that the proxy is given: a base-10 numeral of at most
    /// 2^32 - 1.
    pub fn ttl_header(&self) -> (text: &str)
        ensures
            text@ == self@.ttl_header,
            is_ttl_numeral(text@),
            is_header_value(text@),
    {
        proof {
            use_type_invariant(self);
            lemma_numeral_is_header_value(decimal_value(self.ttl@));
        }
        self.ttl.as_str()
    }

    /// What `intercept` answers for a request: the first of these that holds.
    /// The original target or the auth token cannot stand in a header; the
    /// request has no room for three more headers; the proxy URI is not a
    /// URI. Where none holds, the request is rewritten.
    pub open spec fn verdict(&self, request: aws_smithy_runtime_api::http::Request) -> Result<
        (),
        InterceptError,
    > {
        if !is_header_value(request_uri(request)) || !is_header_value(self@.auth_token) {
            Err(InterceptError::InvalidHeaderValue)
        } else if request_header_count(request) + 3 > HEADER_LIMIT {
            Err(InterceptError::TooManyHeaders)
        } else if !uri_parses(self@.proxy_uri) {
            Err(InterceptError::InvalidProxyUri)
        } else {
            Ok(())
        }
    }

    /// Gives the request the three headers that the proxy reads: the original
    /// target, the auth token and the TTL. Each replaces whatever the request
    /// had under that name. Nothing else changes: not the target, not the
    /// method, not the body, not any other header.
    pub fn add_proxy_headers(
        &self,
        request: &mut aws_smithy_runtime_api::http::Request,
        original_uri: String,
    )
        requires
            is_header_value(original_uri@),
            is_header_value(self@.auth_token),
            request_header_count(*old(request)) + 3 <= HEADER_LIMIT,
        ensures
            header_values(*final(request), URI_HEADER@) == Some(sole_value(original_uri@)),
            header_values(*final(request), AUTH_HEADER@) == Some(sole_value(self@.auth_token)),
            header_values(*final(request), TTL_HEADER@) == Some(sole_value(self@.ttl_header)),
            forall|name: Seq<char>|
                !is_proxy_header(name) ==> #[trigger] header_values(*final(request), name)
                    == header_values(*old(request), name),
            request_uri(*final(request)) == request_uri(*old(request)),
            request_method(*final(request)) == request_method(*old(request)),
            request_body(*final(request)) == request_body(*old(request)),
            request_header_count(*final(request)) <= request_header_count(*old(request)) + 3,
    {
        proof {
            use_type_invariant(self);
            lemma_numeral_is_header_value(decimal_value(self.ttl@));
            lemma_proxy_header_names();
        }
        insert_header(request, URI_HEADER, original_uri);
        insert_header(request, AUTH_HEADER, self.auth_token.clone());
        insert_header(request, TTL_HEADER, self.ttl.clone());
    }

    /// Rewrites a signed request so that it goes to the proxy.
    ///
    /// The target of the request becomes the proxy URI, and the request gets
    /// the three headers that the proxy reads, with the original target, the
    /// auth token and the TTL. The method, the body and every other header
    /// stay as they are. A request that cannot be rewritten is left as it is,
    /// and the error says why.
    pub fn intercept(&self, request: &mut aws_smithy_runtime_api::http::Request) -> (outcome:
        Result<(), InterceptError>)
        ensures
            outcome == self.verdict(*old(request)),
            outcome is Err ==> *final(request) == *old(request),
            outcome is Ok ==> {
                &&& request_uri(*final(request)) == self@.proxy_uri
                &&& header_values(*final(request), URI_HEADER@) == Some(
                    sole_value(request_uri(*old(request))),
                )
                &&& header_values(*final(request), AUTH_HEADER@) == Some(
                    sole_value(self@.auth_token),
                )
                &&& header_values(*final(request), TTL_HEADER@) == Some(
                    sole_value(self@.ttl_header),
                )
                &&& forall|name: Seq<char>|
                    !is_proxy_header(name) ==> #[trigger] header_values(*final(request), name)
                        == header_values(*old(request), name)
                &&& request_method(*final(request)) == request_method(*old(request))
                &&& request_body(*final(request)) == request_body(*old(request))
                &&& request_header_count(*final(request)) <= request_header_count(*old(request))
                    + 3
            },
    {
        let requested = target(request).to_owned();
        if !check_header_value(requested.as_str()) || !check_header_value(
            self.auth_token.as_str(),
        ) {
            return Err(InterceptError::InvalidHeaderValue);
        }
        if header_count(request) > HEADER_LIMIT - 3 {
            return Err(InterceptError::TooManyHeaders);
        }
        match set_target(request, self.proxy_uri.clone()) {
            Err(_) => Err(InterceptError::InvalidProxyUri),
            Ok(()) => {
                self.add_proxy_headers(request, requested);
                Ok(())
            },
        }
    }
}

} // verus!
