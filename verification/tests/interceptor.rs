use aws_smithy_runtime_api::http::Request;
use aws_smithy_types::body::SdkBody;
use momento_ddb_interceptor::header::{check_header_value, AUTH_HEADER, TTL_HEADER, URI_HEADER};
use momento_ddb_interceptor::request::HEADER_LIMIT;
use momento_ddb_interceptor::{accelerator_config, InterceptError, ProxyInterceptor};
use std::time::Duration;

fn example_interceptor() -> ProxyInterceptor {
    accelerator_config()
        .cache_name("orders")
        .momento_hostname("api.cache.example.com")
        .auth_token("tkn123")
        .ttl(Duration::from_secs(60))
        .into_interceptor()
}

fn request_to(uri: &str, body: &'static str) -> Request {
    let mut request = Request::new(SdkBody::from(body));
    request.set_uri(uri).unwrap();
    request
}

fn all_headers(request: &Request) -> Vec<(String, Vec<u8>)> {
    let mut headers: Vec<(String, Vec<u8>)> = request
        .headers()
        .iter_bytes()
        .map(|(name, value)| (name.to_string(), value.to_vec()))
        .collect();
    headers.sort();
    headers
}

#[test]
fn intercept_rewrites_the_example_request() {
    let interceptor = example_interceptor();
    let mut request = request_to("https://dynamodb.us-west-2.amazonaws.com/", "");
    assert_eq!(interceptor.intercept(&mut request), Ok(()));
    assert_eq!(request.uri(), "https://api.cache.example.com/ddb/orders/cache");
    assert_eq!(
        request.headers().get("x-uri"),
        Some("https://dynamodb.us-west-2.amazonaws.com/")
    );
    assert_eq!(request.headers().get("x-momento-authorization"), Some("tkn123"));
    assert_eq!(request.headers().get("x-ttl-millis"), Some("60000"));
}

#[test]
fn intercept_sets_exactly_three_headers_on_a_bare_request() {
    let interceptor = example_interceptor();
    let mut request = request_to("https://dynamodb.us-west-2.amazonaws.com/", "");
    assert_eq!(interceptor.intercept(&mut request), Ok(()));
    assert_eq!(
        all_headers(&request),
        vec![
            ("x-momento-authorization".to_string(), b"tkn123".to_vec()),
            ("x-ttl-millis".to_string(), b"60000".to_vec()),
            (
                "x-uri".to_string(),
                b"https://dynamodb.us-west-2.amazonaws.com/".to_vec()
            ),
        ]
    );
}

#[test]
fn header_names_are_the_ones_the_proxy_reads() {
    assert_eq!(URI_HEADER, "x-uri");
    assert_eq!(AUTH_HEADER, "x-momento-authorization");
    assert_eq!(TTL_HEADER, "x-ttl-millis");
}

#[test]
fn intercept_keeps_the_original_target_with_path_and_query() {
    let interceptor = example_interceptor();
    let original = "https://dynamodb.eu-central-1.amazonaws.com/a/b?x=1&y=%20z";
    let mut request = request_to(original, "");
    assert_eq!(interceptor.intercept(&mut request), Ok(()));
    assert_eq!(request.headers().get("x-uri"), Some(original));
    assert_eq!(request.uri(), interceptor.proxy_uri());
}

#[test]
fn intercept_leaves_other_headers_body_and_method_alone() {
    let interceptor = example_interceptor();
    let mut request = request_to("https://dynamodb.us-west-2.amazonaws.com/", "{\"TableName\":\"t\"}");
    request.set_method("POST").unwrap();
    request.headers_mut().insert("x-amz-target", "DynamoDB_20120810.GetItem");
    request.headers_mut().insert("content-type", "application/x-amz-json-1.0");
    request.headers_mut().append("accept", "a/one");
    request.headers_mut().append("accept", "b/two");
    request.headers_mut().insert("authorization", "AWS4-HMAC-SHA256 Credential=abc");
    assert_eq!(interceptor.intercept(&mut request), Ok(()));

    assert_eq!(request.body().bytes(), Some(&b"{\"TableName\":\"t\"}"[..]));
    assert_eq!(request.method(), "POST");
    assert_eq!(
        all_headers(&request),
        vec![
            ("accept".to_string(), b"a/one".to_vec()),
            ("accept".to_string(), b"b/two".to_vec()),
            (
                "authorization".to_string(),
                b"AWS4-HMAC-SHA256 Credential=abc".to_vec()
            ),
            ("content-type".to_string(), b"application/x-amz-json-1.0".to_vec()),
            ("x-amz-target".to_string(), b"DynamoDB_20120810.GetItem".to_vec()),
            ("x-momento-authorization".to_string(), b"tkn123".to_vec()),
            ("x-ttl-millis".to_string(), b"60000".to_vec()),
            (
                "x-uri".to_string(),
                b"https://dynamodb.us-west-2.amazonaws.com/".to_vec()
            ),
        ]
    );
}

#[test]
fn intercept_replaces_earlier_values_of_the_proxy_headers() {
    let interceptor = example_interceptor();
    let mut request = request_to("https://dynamodb.us-west-2.amazonaws.com/", "");
    request.headers_mut().append("x-uri", "stale-one");
    request.headers_mut().append("x-uri", "stale-two");
    request.headers_mut().insert("x-momento-authorization", "old-token");
    request.headers_mut().insert("x-ttl-millis", "1");
    request.headers_mut().insert("x-other", "kept");
    assert_eq!(interceptor.intercept(&mut request), Ok(()));
    assert_eq!(
        all_headers(&request),
        vec![
            ("x-momento-authorization".to_string(), b"tkn123".to_vec()),
            ("x-other".to_string(), b"kept".to_vec()),
            ("x-ttl-millis".to_string(), b"60000".to_vec()),
            (
                "x-uri".to_string(),
                b"https://dynamodb.us-west-2.amazonaws.com/".to_vec()
            ),
        ]
    );
}

#[test]
fn a_second_interception_records_the_proxy_as_the_original_target() {
    let interceptor = example_interceptor();
    let mut request = request_to("https://dynamodb.us-west-2.amazonaws.com/", "");
    assert_eq!(interceptor.intercept(&mut request), Ok(()));
    assert_eq!(interceptor.intercept(&mut request), Ok(()));
    assert_eq!(request.uri(), "https://api.cache.example.com/ddb/orders/cache");
    assert_eq!(
        request.headers().get("x-uri"),
        Some("https://api.cache.example.com/ddb/orders/cache")
    );
}

#[test]
fn requests_are_rewritten_independently() {
    let interceptor = example_interceptor();
    let mut first = request_to("https://one.example/", "1");
    let mut second = request_to("https://two.example/", "2");
    assert_eq!(interceptor.intercept(&mut first), Ok(()));
    assert_eq!(interceptor.intercept(&mut second), Ok(()));
    assert_eq!(first.headers().get("x-uri"), Some("https://one.example/"));
    assert_eq!(second.headers().get("x-uri"), Some("https://two.example/"));
    assert_eq!(first.body().bytes(), Some(&b"1"[..]));
    assert_eq!(second.body().bytes(), Some(&b"2"[..]));
    assert_eq!(interceptor.ttl_header(), "60000");
}

#[test]
fn a_token_beyond_ascii_is_sent_as_utf8() {
    let interceptor = ProxyInterceptor::new(
        "https://proxy.example/ddb/c/cache".to_string(),
        "t\u{f6}ken\t\u{1f511}".to_string(),
        Duration::from_secs(1),
    );
    let mut request = request_to("https://dynamodb.us-west-2.amazonaws.com/", "");
    assert_eq!(interceptor.intercept(&mut request), Ok(()));
    assert_eq!(
        request.headers().get_bytes("x-momento-authorization"),
        Some("t\u{f6}ken\t\u{1f511}".as_bytes())
    );
    assert_eq!(request.headers().get("x-ttl-millis"), Some("1000"));
}

#[test]
fn an_invalid_proxy_uri_is_an_error_and_leaves_the_request_alone() {
    let interceptor = accelerator_config()
        .cache_name("orders")
        .momento_hostname("not a host")
        .auth_token("tkn123")
        .ttl(Duration::from_secs(60))
        .into_interceptor();
    let mut request = request_to("https://dynamodb.us-west-2.amazonaws.com/", "body");
    request.headers_mut().insert("x-amz-target", "DynamoDB_20120810.GetItem");
    assert_eq!(
        interceptor.intercept(&mut request),
        Err(InterceptError::InvalidProxyUri)
    );
    assert_eq!(request.uri(), "https://dynamodb.us-west-2.amazonaws.com/");
    assert_eq!(request.body().bytes(), Some(&b"body"[..]));
    assert_eq!(
        all_headers(&request),
        vec![("x-amz-target".to_string(), b"DynamoDB_20120810.GetItem".to_vec())]
    );
}

#[test]
fn an_empty_proxy_uri_is_an_error() {
    let interceptor =
        ProxyInterceptor::new(String::new(), "tkn123".to_string(), Duration::from_secs(60));
    let mut request = request_to("https://dynamodb.us-west-2.amazonaws.com/", "");
    assert_eq!(
        interceptor.intercept(&mut request),
        Err(InterceptError::InvalidProxyUri)
    );
    assert_eq!(request.uri(), "https://dynamodb.us-west-2.amazonaws.com/");
    assert!(request.headers().is_empty());
}

#[test]
fn a_token_with_a_line_break_is_an_error_and_leaves_the_request_alone() {
    let interceptor = accelerator_config()
        .cache_name("orders")
        .momento_hostname("api.cache.example.com")
        .auth_token("tkn\n123")
        .ttl(Duration::from_secs(60))
        .into_interceptor();
    let mut request = request_to("https://dynamodb.us-west-2.amazonaws.com/", "body");
    assert_eq!(
        interceptor.intercept(&mut request),
        Err(InterceptError::InvalidHeaderValue)
    );
    assert_eq!(request.uri(), "https://dynamodb.us-west-2.amazonaws.com/");
    assert!(request.headers().is_empty());
    assert_eq!(request.body().bytes(), Some(&b"body"[..]));
}

#[test]
fn an_invalid_token_is_reported_before_an_invalid_proxy_uri() {
    let interceptor = ProxyInterceptor::new(
        "not a uri".to_string(),
        "tkn\u{7f}".to_string(),
        Duration::from_secs(60),
    );
    let mut request = request_to("https://dynamodb.us-west-2.amazonaws.com/", "");
    assert_eq!(
        interceptor.intercept(&mut request),
        Err(InterceptError::InvalidHeaderValue)
    );
}

fn request_with_headers(count: usize) -> Request {
    let mut request = request_to("https://dynamodb.us-west-2.amazonaws.com/", "");
    for i in 0..count {
        request.headers_mut().insert(format!("h{i}"), "v");
    }
    assert_eq!(request.headers().len(), count);
    request
}

#[test]
fn a_request_with_room_for_three_headers_is_rewritten() {
    let interceptor = example_interceptor();
    let mut request = request_with_headers(HEADER_LIMIT - 3);
    assert_eq!(interceptor.intercept(&mut request), Ok(()));
    assert_eq!(request.headers().len(), HEADER_LIMIT);
    assert_eq!(request.headers().get("x-ttl-millis"), Some("60000"));
    assert_eq!(request.uri(), "https://api.cache.example.com/ddb/orders/cache");
    assert_eq!(
        request.headers().get("x-uri"),
        Some("https://dynamodb.us-west-2.amazonaws.com/")
    );
    assert_eq!(request.headers().get("x-momento-authorization"), Some("tkn123"));
    assert_eq!(request.headers().get("h0"), Some("v"));
    assert_eq!(request.headers().get("h6550"), Some("v"));
}

#[test]
fn the_header_limit_is_where_the_header_map_may_decline() {
    assert_eq!(HEADER_LIMIT, 6554);
}

#[test]
fn a_request_with_thousands_of_headers_is_rewritten() {
    let interceptor = example_interceptor();
    for count in [4093, 4094, 4096, 5000] {
        let mut request = request_with_headers(count);
        request.headers_mut().insert("x-uri", "stale");
        assert_eq!(interceptor.intercept(&mut request), Ok(()));
        assert_eq!(request.uri(), "https://api.cache.example.com/ddb/orders/cache");
        assert_eq!(
            request.headers().get("x-uri"),
            Some("https://dynamodb.us-west-2.amazonaws.com/")
        );
        assert_eq!(request.headers().get("x-momento-authorization"), Some("tkn123"));
        assert_eq!(request.headers().get("x-ttl-millis"), Some("60000"));
        assert_eq!(request.headers().len(), count + 3);
    }
}

#[test]
fn a_request_without_room_for_three_headers_is_an_error() {
    let interceptor = example_interceptor();
    let mut request = request_with_headers(HEADER_LIMIT - 2);
    assert_eq!(
        interceptor.intercept(&mut request),
        Err(InterceptError::TooManyHeaders)
    );
    assert_eq!(request.uri(), "https://dynamodb.us-west-2.amazonaws.com/");
    assert_eq!(request.headers().len(), HEADER_LIMIT - 2);
    assert_eq!(request.headers().get("x-uri"), None);
}

#[test]
fn too_many_headers_is_reported_before_an_invalid_proxy_uri() {
    let interceptor =
        ProxyInterceptor::new("not a uri".to_string(), "t".to_string(), Duration::from_secs(1));
    let mut request = request_with_headers(HEADER_LIMIT);
    assert_eq!(
        interceptor.intercept(&mut request),
        Err(InterceptError::TooManyHeaders)
    );
}

#[test]
fn add_proxy_headers_sets_the_three_headers_and_nothing_else() {
    let interceptor = example_interceptor();
    let mut request = request_to("https://dynamodb.us-west-2.amazonaws.com/", "body");
    request.headers_mut().insert("x-other", "kept");
    interceptor.add_proxy_headers(&mut request, "https://elsewhere.example/".to_string());
    assert_eq!(request.uri(), "https://dynamodb.us-west-2.amazonaws.com/");
    assert_eq!(request.body().bytes(), Some(&b"body"[..]));
    assert_eq!(
        all_headers(&request),
        vec![
            ("x-momento-authorization".to_string(), b"tkn123".to_vec()),
            ("x-other".to_string(), b"kept".to_vec()),
            ("x-ttl-millis".to_string(), b"60000".to_vec()),
            ("x-uri".to_string(), b"https://elsewhere.example/".to_vec()),
        ]
    );
}

#[test]
fn header_values_may_hold_tabs_and_text_beyond_ascii() {
    assert!(check_header_value(""));
    assert!(check_header_value("plain text ~"));
    assert!(check_header_value("a\tb"));
    assert!(check_header_value("gr\u{fc}n \u{1f600}"));
    assert!(check_header_value("4294967295"));
}

#[test]
fn header_values_may_not_hold_control_characters() {
    assert!(!check_header_value("a\nb"));
    assert!(!check_header_value("a\rb"));
    assert!(!check_header_value("\u{0}"));
    assert!(!check_header_value("a\u{1f}"));
    assert!(!check_header_value("a\u{7f}b"));
}

#[test]
fn interceptor_is_named_momento_proxy() {
    assert_eq!(example_interceptor().name(), "MomentoProxy");
}

#[test]
fn errors_say_what_went_wrong() {
    assert_eq!(InterceptError::InvalidProxyUri.message(), "must be a valid uri");
    assert_eq!(
        InterceptError::InvalidHeaderValue.message(),
        "a proxy header value is not a valid header value"
    );
    assert_eq!(
        InterceptError::TooManyHeaders.message(),
        "the request has too many headers"
    );
}
