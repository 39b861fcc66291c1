//! The outbound HTTP request, as the client runtime holds it.
//!
//! The request type belongs to `aws-smithy-runtime-api`, and its headers rest
//! on the header map of `http`. Nothing in this file is proved: each item
//! states what the source of those crates shows of one method, over a model
//! of the request as a target, a method, a table of headers and a body.

use vstd::prelude::*;
use vstd::utf8::*;

verus! {

#[verifier::external_type_specification]
#[verifier::external_body]
#[verifier::reject_recursive_types(B)]
pub struct ExRequest<B>(aws_smithy_runtime_api::http::Request<B>);

#[verifier::external_type_specification]
#[verifier::external_body]
pub struct ExSdkBody(aws_smithy_types::body::SdkBody);

#[verifier::external_type_specification]
#[verifier::external_body]
pub struct ExHttpError(aws_smithy_runtime_api::http::HttpError);

/// The target of a request: the string that `Request::uri` returns.
pub uninterp spec fn request_uri(request: aws_smithy_runtime_api::http::Request) -> Seq<char>;

/// The headers of a request: each name that is present, in lower case, with
/// the octets of its values in order, as `Headers::get_all_bytes` yields them.
pub uninterp spec fn request_headers(request: aws_smithy_runtime_api::http::Request) -> Map<
    Seq<char>,
    Seq<Seq<u8>>,
>;

/// The number of header values of a request, as `Headers::len` returns it.
pub uninterp spec fn request_header_count(request: aws_smithy_runtime_api::http::Request) -> nat;

/// The method of a request: the string that `Request::method` returns.
pub uninterp spec fn request_method(request: aws_smithy_runtime_api::http::Request) -> Seq<char>;

/// The body of a request: what `Request::body` refers to.
pub uninterp spec fn request_body(
    request: aws_smithy_runtime_api::http::Request,
) -> aws_smithy_types::body::SdkBody;

/// Whether the runtime takes `uri` as the target of a request: the verdict of
/// the URI parser behind `Request::set_uri`.
pub uninterp spec fn uri_parses(uri: Seq<char>) -> bool;

/// The number of header values from which on a request may be unable to
/// take another header.
///
/// The header map of `http` declines an insert only once it holds 6554 names
/// or more, and `Headers::insert` panics where the map declines. A request
/// with fewer header values than this has fewer names than this, and takes
/// one more header.
pub const HEADER_LIMIT: usize = 6554;

/// Whether `c` may stand in the name of a header that this library sets: a
/// lower-case letter, a digit or a hyphen.
pub open spec fn is_header_name_char(c: char) -> bool {
    ('a' <= c && c <= 'z') || ('0' <= c && c <= '9') || c == '-'
}

/// Whether `name` is a header name that this library may set: between 1 and
/// 64 characters, each a lower-case letter, a digit or a hyphen. `http` takes
/// every such name, and more.
pub open spec fn is_header_name(name: Seq<char>) -> bool {
    &&& 0 < name.len() <= 64
    &&& forall|i: int| 0 <= i < name.len() ==> is_header_name_char(#[trigger] name[i])
}

/// Whether `http` takes the octet `b` inside a header value: a tab, or
/// anything from the space on but the delete character.
pub open spec fn is_header_octet(b: u8) -> bool {
    (b >= 32 && b != 127) || b == 9
}

/// Whether `http` takes the string `value` as a header value: every octet of
/// its UTF-8 encoding is one that it takes.
pub open spec fn is_header_value(value: Seq<char>) -> bool {
    forall|i: int|
        0 <= i < encode_utf8(value).len() ==> is_header_octet(#[trigger] encode_utf8(value)[i])
}

/// `Request::uri`: the target of the request.
#[verifier::external_body]
pub(crate) fn target<'a>(request: &'a aws_smithy_runtime_api::http::Request) -> (uri: &'a str)
    ensures
        uri@ == request_uri(*request),
{
    request.uri()
}

/// `Request::set_uri`, handed a `String`: the string is parsed, and where it
/// parses it becomes the target of the request, letter for letter. Method,
/// headers and body stay as they are. A string that does not parse leaves the
/// whole request as it is.
#[verifier::external_body]
pub(crate) fn set_target(
    request: &mut aws_smithy_runtime_api::http::Request,
    uri: String,
) -> (outcome: Result<(), aws_smithy_runtime_api::http::HttpError>)
    ensures
        outcome is Ok <==> uri_parses(uri@),
        outcome is Ok ==> {
            &&& request_uri(*final(request)) == uri@
            &&& request_method(*final(request)) == request_method(*old(request))
            &&& request_headers(*final(request)) == request_headers(*old(request))
            &&& request_header_count(*final(request)) == request_header_count(*old(request))
            &&& request_body(*final(request)) == request_body(*old(request))
        },
        outcome is Err ==> *final(request) == *old(request),
{
    request.set_uri(uri)
}

/// `Headers::len`, on the headers of the request: the number of values held.
#[verifier::external_body]
pub(crate) fn header_count(request: &aws_smithy_runtime_api::http::Request) -> (count: usize)
    ensures
        count == request_header_count(*request),
{
    request.headers().len()
}

/// `Headers::insert`, on the headers of the request: `value` becomes the one
/// value of the header `name`, in place of any that it had, and no other
/// header changes. The number of values grows by one at most; target, method
/// and body stay as they are.
///
/// The method panics on a name or a value that `http` does not take, and
/// where the header map declines to grow: the `requires` leaves those out.
#[verifier::external_body]
pub(crate) fn insert_header(
    request: &mut aws_smithy_runtime_api::http::Request,
    name: &'static str,
    value: String,
)
    requires
        is_header_name(name@),
        is_header_value(value@),
        request_header_count(*old(request)) < HEADER_LIMIT,
    ensures
        request_headers(*final(request)) == request_headers(*old(request)).insert(
            name@,
            seq![encode_utf8(value@)],
        ),
        request_header_count(*final(request)) <= request_header_count(*old(request)) + 1,
        request_uri(*final(request)) == request_uri(*old(request)),
        request_method(*final(request)) == request_method(*old(request)),
        request_body(*final(request)) == request_body(*old(request)),
{
    request.headers_mut().insert(name, value);
}

} // verus!
