//! Requests as the pipeline sees them: a method, a path, the header map that
//! the transport filled, and a body of whatever kind the stage works on.

use vstd::prelude::*;
use vstd::string::StringSliceAdditionalSpecFns;

use crate::decimal::parse_usize;
use crate::decimal::parse_usize_spec;

verus! {

/// `http::HeaderMap`, the multimap from header names to header values.
#[verifier::external_type_specification]
#[verifier::external_body]
#[verifier::reject_recursive_types(T)]
pub struct ExHeaderMap<T>(http::HeaderMap<T>);

/// `http::HeaderValue`, the bytes of one header value.
#[verifier::external_type_specification]
#[verifier::external_body]
pub struct ExHeaderValue(http::HeaderValue);

/// What a header map holds: for each header name that has a value, in lower
/// case as `http` keeps names, the bytes of its values in the order in which
/// `get_all` yields them. A name in the domain has at least one value.
pub uninterp spec fn header_map_view(headers: http::HeaderMap<http::HeaderValue>) -> Map<
    Seq<char>,
    Seq<Seq<u8>>,
>;

/// The bytes that a header value holds.
pub uninterp spec fn header_value_view(value: http::HeaderValue) -> Seq<u8>;

/// The name of the header that declares the length of the body, as `http`
/// spells it.
pub open spec fn content_length_name() -> Seq<char> {
    "content-length"@
}

/// The first value that `headers` holds under `name`, if it holds one.
pub open spec fn first_value(headers: http::HeaderMap<http::HeaderValue>, name: Seq<char>) -> Option<
    Seq<u8>,
> {
    if header_map_view(headers).contains_key(name) {
        Some(header_map_view(headers)[name][0])
    } else {
        None
    }
}

/// `b` is what `http` calls visible ASCII: a printable ASCII byte, a space or
/// a tab.
pub open spec fn is_visible_ascii(b: u8) -> bool {
    (32 <= b < 127) || b == 9
}

/// Every byte of `bytes` is visible ASCII.
pub open spec fn all_visible_ascii(bytes: Seq<u8>) -> bool {
    forall|i: int| 0 <= i < bytes.len() ==> is_visible_ascii(#[trigger] bytes[i])
}

/// `http::HeaderMap::get` with the name `http::header::CONTENT_LENGTH`.
/// Believed of it: it returns the first value stored under that name, and
/// `None` when the map stores no value under it.
#[verifier::external_body]
fn get_content_length(headers: &http::HeaderMap<http::HeaderValue>) -> (value: Option<
    &http::HeaderValue,
>)
    ensures
        match value {
            Some(v) => header_map_view(*headers).contains_key(content_length_name())
                && header_map_view(*headers)[content_length_name()][0] == header_value_view(*v),
            None => !header_map_view(*headers).contains_key(content_length_name()),
        },
{
    headers.get(http::header::CONTENT_LENGTH)
}

/// `http::HeaderValue::to_str`. Believed of it: it succeeds exactly when
/// every byte of the value is visible ASCII, and the text it returns is made
/// of the value's bytes.
#[verifier::external_body]
fn value_to_str(value: &http::HeaderValue) -> (text: Option<&str>)
    ensures
        text is Some <==> all_visible_ascii(header_value_view(*value)),
        text matches Some(t) ==> t.spec_bytes() == header_value_view(*value),
{
    value.to_str().ok()
}

/// What a request says of the length of its body.
#[derive(Debug, Clone, Copy, PartialEq, Eq, Structural)]
pub enum Declared {
    /// No `content-length` header.
    Missing,
    /// A `content-length` header that is not visible ASCII, or not an
    /// unsigned decimal number that fits a `usize`.
    Malformed,
    /// A `content-length` header with this value.
    Length(usize),
}

/// How the first `content-length` value of a request, if any, is read.
pub open spec fn declared_from(value: Option<Seq<u8>>) -> Declared {
    match value {
        None => Declared::Missing,
        Some(bytes) => if !all_visible_ascii(bytes) {
            Declared::Malformed
        } else {
            match parse_usize_spec(bytes) {
                Some(n) => Declared::Length(n),
                None => Declared::Malformed,
            }
        },
    }
}

/// A length that is written in decimal is read as that length: the digits
/// of `n` are visible ASCII and denote `n`.
pub proof fn lemma_written_length_is_read(n: usize)
    ensures
        declared_from(Some(crate::decimal::decimal_digits(n as nat))) == Declared::Length(n),
        declared_from(Some(vstd::utf8::encode_utf8(crate::decimal::decimal_chars(n as nat))))
            == Declared::Length(n),
{
    let digits = crate::decimal::decimal_digits(n as nat);
    crate::decimal::lemma_decimal_digits(n as nat);
    crate::decimal::lemma_decimal_text_roundtrip(n);
    assert forall|i: int| 0 <= i < digits.len() implies is_visible_ascii(#[trigger] digits[i]) by {
        assert(crate::decimal::is_digit(digits[i]));
    }
}

/// The length that `headers` declare.
pub open spec fn declared_length_spec(headers: http::HeaderMap<http::HeaderValue>) -> Declared {
    declared_from(first_value(headers, content_length_name()))
}

/// Reads the declared length of the body from the first `content-length`
/// header. No other header is looked at.
pub fn declared_length(headers: &http::HeaderMap<http::HeaderValue>) -> (declared: Declared)
    ensures
        declared == declared_length_spec(*headers),
{
    let value = match get_content_length(headers) {
        Some(value) => value,
        None => {
            return Declared::Missing;
        },
    };
    let text = match value_to_str(value) {
        Some(text) => text,
        None => {
            return Declared::Malformed;
        },
    };
    match parse_usize(text.as_bytes()) {
        Some(n) => Declared::Length(n),
        None => Declared::Malformed,
    }
}

/// The method of a request.
#[derive(Debug, Clone, Copy, PartialEq, Eq, Structural)]
pub enum Method {
    Get,
    Post,
    Put,
    Delete,
    Head,
    Options,
    Connect,
    Patch,
    Trace,
    /// Any method that is none of the above.
    Other,
}

/// A request without its body.
#[derive(Debug)]
pub struct Parts {
    /// The request method.
    pub method: Method,
    /// The path of the request target, with its leading `/`.
    pub path: String,
    /// The headers, as the transport received them.
    pub headers: http::HeaderMap<http::HeaderValue>,
}

/// A request: its head and a body of type `B`. The stages of the pipeline
/// differ in `B`: a stream at the transport, one text after buffering.
#[derive(Debug)]
pub struct Request<B> {
    /// Method, path and headers.
    pub head: Parts,
    /// The body.
    pub body: B,
}

impl<B> Request<B> {
    /// Puts a head and a body together.
    pub fn from_parts(head: Parts, body: B) -> (request: Self)
        ensures
            request.head == head,
            request.body == body,
    {
        Request { head, body }
    }

    /// Takes the request apart.
    pub fn into_parts(self) -> (parts: (Parts, B))
        ensures
            parts.0 == self.head,
            parts.1 == self.body,
    {
        (self.head, self.body)
    }
}

} // verus!
