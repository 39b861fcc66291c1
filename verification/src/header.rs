//! The three headers that the proxy reads, and what may stand in a header.

use crate::decimal::{decimal, lemma_decimal_shape};
use crate::request::{
    is_header_name, is_header_octet, is_header_value, request_headers,
};
use vstd::prelude::*;
use vstd::utf8::*;

verus! {

/// The header that carries the original target of the request.
pub const URI_HEADER: &'static str = "x-uri";

/// The header that carries the auth token.
pub const AUTH_HEADER: &'static str = "x-momento-authorization";

/// The header that carries the TTL in milliseconds.
pub const TTL_HEADER: &'static str = "x-ttl-millis";

/// Whether `name` is one of the three headers that the proxy reads.
pub open spec fn is_proxy_header(name: Seq<char>) -> bool {
    name == URI_HEADER@ || name == AUTH_HEADER@ || name == TTL_HEADER@
}

/// The values of the header `name` of a request, or `None` where the request
/// has no such header.
pub open spec fn header_values(
    request: aws_smithy_runtime_api::http::Request,
    name: Seq<char>,
) -> Option<Seq<Seq<u8>>> {
    if request_headers(request).contains_key(name) {
        Some(request_headers(request)[name])
    } else {
        None
    }
}

/// The values of a header that has `text` as its one value.
pub open spec fn sole_value(text: Seq<char>) -> Seq<Seq<u8>> {
    seq![encode_utf8(text)]
}

/// The three header names are names that may be set, and no two of them are
/// the same.
pub proof fn lemma_proxy_header_names()
    ensures
        is_header_name(URI_HEADER@),
        is_header_name(AUTH_HEADER@),
        is_header_name(TTL_HEADER@),
        URI_HEADER@ != AUTH_HEADER@,
        URI_HEADER@ != TTL_HEADER@,
        AUTH_HEADER@ != TTL_HEADER@,
{
    reveal_strlit("x-uri");
    reveal_strlit("x-momento-authorization");
    reveal_strlit("x-ttl-millis");
    assert(URI_HEADER@.len() == 5);
    assert(AUTH_HEADER@.len() == 23);
    assert(TTL_HEADER@.len() == 12);
}

/// A base-10 numeral is a header value.
pub proof fn lemma_numeral_is_header_value(n: nat)
    ensures
        is_header_value(decimal(n)),
{
    let text = decimal(n);
    lemma_decimal_shape(n);
    assert(is_ascii_chars(text)) by {
        assert forall|i: int| 0 <= i < text.len() implies '\0' <= #[trigger] text[i] <= '\u{7f}' by {
            lemma_digit_range(text[i]);
        }
    }
    is_ascii_chars_encode_utf8(text);
    assert forall|i: int| 0 <= i < encode_utf8(text).len() implies is_header_octet(
        #[trigger] encode_utf8(text)[i],
    ) by {
        lemma_digit_range(text[i]);
        assert(text[i] as u8 == encode_utf8(text)[i]);
    }
}

/// Tells whether `value` may stand as a header value.
pub fn check_header_value(value: &str) -> (ok: bool)
    ensures
        ok == is_header_value(value@),
{
    let octets = value.as_bytes();
    let mut i: usize = 0;
    while i < octets.len()
        invariant
            i <= octets@.len(),
            octets@ == encode_utf8(value@),
            forall|j: int| 0 <= j < i ==> is_header_octet(#[trigger] octets@[j]),
        decreases octets@.len() - i,
    {
        let b = octets[i];
        if !((b >= 32 && b != 127) || b == 9) {
            return false;
        }
        i += 1;
    }
    true
}

/// A decimal digit is a character between `0` and `9`.
proof fn lemma_digit_range(c: char)
    requires
        crate::decimal::is_digit(c),
    ensures
        '0' <= c <= '9',
{
}

} // verus!
