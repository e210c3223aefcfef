//! Responses, and the conversion of what a handler gives into one.

use vstd::prelude::*;
use vstd::string::StringExecFns;
use vstd::utf8::encode_utf8;

use crate::decimal::decimal_chars;
use crate::decimal::to_decimal;
use crate::error::BoxError;
use crate::error::Error;
use crate::response::body::bytes_from_static;
use crate::response::body::bytes_from_string;
use crate::response::body::bytes_from_vec;

pub mod body;

pub use body::Body;

verus! {

/// The content type of text.
pub const CONTENT_TYPE_TEXT: &'static str = "text/plain; charset=utf-8";

/// The content type of bytes that are not further described.
pub const CONTENT_TYPE_BYTES: &'static str = "application/octet-stream";

/// The status of a response to a request that was served.
pub const STATUS_OK: u16 = 200;

/// The status of a response to a request that is itself at fault.
pub const STATUS_BAD_REQUEST: u16 = 400;

/// The status of a response to a request that no route takes.
pub const STATUS_NOT_FOUND: u16 = 404;

/// The status of a response to a request that the server failed on.
pub const STATUS_INTERNAL_SERVER_ERROR: u16 = 500;

/// One header of a response.
#[derive(Debug, PartialEq, Eq)]
pub struct Header {
    /// The name, in lower case.
    pub name: String,
    /// The value.
    pub value: String,
}

/// A response: a status, headers in the order in which they were set, and a
/// body of type `B`.
#[derive(Debug)]
pub struct HttpResponse<B> {
    /// The status code.
    pub status: u16,
    /// The headers.
    pub headers: Vec<Header>,
    /// The body.
    pub body: B,
}

impl<B> HttpResponse<B> {
    /// A response with `body`, the status 200 and no header.
    pub fn new(body: B) -> (response: Self)
        ensures
            response.status == STATUS_OK,
            response.headers@.len() == 0,
            response.body == body,
    {
        HttpResponse { status: STATUS_OK, headers: Vec::new(), body }
    }
}

/// A response as it goes out: the status, the headers as pairs of name and
/// value, and the bytes of the body.
pub struct Wire {
    pub status: u16,
    pub headers: Seq<(Seq<char>, Seq<char>)>,
    pub body: Seq<u8>,
}

/// The name of the header that holds the content type.
pub open spec fn content_type_name() -> Seq<char> {
    "content-type"@
}

/// The name of the header that holds the length of the body.
pub open spec fn content_length_name() -> Seq<char> {
    "content-length"@
}

/// The headers of `headers` as pairs of name and value.
pub open spec fn header_views(headers: Seq<Header>) -> Seq<(Seq<char>, Seq<char>)> {
    headers.map_values(|header: Header| (header.name@, header.value@))
}

/// The response with this status and body that says of its body what type
/// it has and how long it is, and nothing else.
pub open spec fn wire_of(status: u16, content_type: Seq<char>, body: Seq<u8>) -> Wire {
    Wire {
        status,
        headers: seq![
            (content_type_name(), content_type),
            (content_length_name(), decimal_chars(body.len())),
        ],
        body,
    }
}

impl Wire {
    /// Whether the response says what the type of its body is, and says of
    /// its length exactly how many bytes the body has.
    pub open spec fn is_well_formed(self) -> bool {
        &&& exists|i: int| 0 <= i < self.headers.len() && (#[trigger] self.headers[i]).0 == content_type_name()
        &&& exists|i: int|
            0 <= i < self.headers.len() && #[trigger] self.headers[i] == (
                content_length_name(),
                decimal_chars(self.body.len()),
            )
    }

    /// The response with a status that tells of an error: 500 in place of
    /// 200, any other status as it is.
    pub open spec fn as_error(self) -> Wire {
        Wire {
            status: if self.status == STATUS_OK {
                STATUS_INTERNAL_SERVER_ERROR
            } else {
                self.status
            },
            headers: self.headers,
            body: self.body,
        }
    }
}

impl HttpResponse<Body> {
    /// The response as it goes out.
    pub open spec fn wire(&self) -> Wire {
        Wire { status: self.status, headers: header_views(self.headers@), body: self.body@ }
    }
}

/// A response of `wire_of` is well formed.
pub proof fn lemma_wire_of_well_formed(status: u16, content_type: Seq<char>, body: Seq<u8>)
    ensures
        wire_of(status, content_type, body).is_well_formed(),
{
    let wire = wire_of(status, content_type, body);
    assert(wire.headers[0].0 == content_type_name());
    assert(wire.headers[1] == (content_length_name(), decimal_chars(body.len())));
}

/// Builds the response for a body of `length` bytes.
pub(crate) fn respond(status: u16, content_type: &'static str, length: usize, body: Body) -> (response:
    HttpResponse<Body>)
    requires
        length == body@.len(),
    ensures
        response.wire() == wire_of(status, content_type@, body@),
{
    let mut headers: Vec<Header> = Vec::new();
    headers.push(
        Header { name: String::from_str("content-type"), value: String::from_str(content_type) },
    );
    headers.push(Header { name: String::from_str("content-length"), value: to_decimal(length) });
    let response = HttpResponse { status, headers, body };
    assert(response.wire().headers =~= wire_of(status, content_type@, body@).headers);
    response
}

/// What can be turned into a response.
pub trait Response: Sized {
    /// The response that the value turns into, as it goes out, or the error
    /// of the conversion.
    spec fn response(self) -> Result<Wire, BoxError>;

    /// Turns the value into a response. A response that comes out is well
    /// formed.
    fn into_response(self) -> (converted: Result<HttpResponse<Body>, BoxError>)
        ensures
            match converted {
                Ok(response) => self.response() == Ok::<Wire, BoxError>(response.wire())
                    && response.wire().is_well_formed(),
                Err(error) => self.response() == Err::<Wire, BoxError>(error),
            },
    ;
}

impl<T: Response, E: Response> Response for Result<T, E> {
    /// The response of whichever side is there. That of an error never has
    /// the status 200: where the error's own conversion says 200, it is 500.
    open spec fn response(self) -> Result<Wire, BoxError> {
        match self {
            Ok(value) => value.response(),
            Err(error) => match error.response() {
                Ok(wire) => Ok(wire.as_error()),
                Err(failure) => Err(failure),
            },
        }
    }

    fn into_response(self) -> (converted: Result<HttpResponse<Body>, BoxError>) {
        match self {
            Ok(value) => value.into_response(),
            Err(error) => {
                let mut response = match error.into_response() {
                    Ok(response) => response,
                    Err(failure) => {
                        return Err(failure);
                    },
                };
                let ghost before = response.wire();
                if response.status == STATUS_OK {
                    response.status = STATUS_INTERNAL_SERVER_ERROR;
                }
                proof {
                    assert(response.wire() == before.as_error());
                    let i = choose|i: int|
                        0 <= i < before.headers.len() && (#[trigger] before.headers[i]).0
                            == content_type_name();
                    assert(response.wire().headers[i].0 == content_type_name());
                    let j = choose|j: int|
                        0 <= j < before.headers.len() && #[trigger] before.headers[j] == (
                            content_length_name(),
                            decimal_chars(before.body.len()),
                        );
                    assert(response.wire().headers[j] == (
                        content_length_name(),
                        decimal_chars(response.wire().body.len()),
                    ));
                }
                Ok(response)
            },
        }
    }
}

impl Response for () {
    /// Status 200 and an empty body, as text.
    open spec fn response(self) -> Result<Wire, BoxError> {
        Ok(wire_of(STATUS_OK, CONTENT_TYPE_TEXT@, Seq::empty()))
    }

    fn into_response(self) -> (converted: Result<HttpResponse<Body>, BoxError>) {
        proof {
            lemma_wire_of_well_formed(STATUS_OK, CONTENT_TYPE_TEXT@, Seq::empty());
        }
        Ok(respond(STATUS_OK, CONTENT_TYPE_TEXT, 0, Body::empty()))
    }
}

impl Response for String {
    /// Status 200 and the text in UTF-8.
    open spec fn response(self) -> Result<Wire, BoxError> {
        Ok(wire_of(STATUS_OK, CONTENT_TYPE_TEXT@, encode_utf8(self@)))
    }

    fn into_response(self) -> (converted: Result<HttpResponse<Body>, BoxError>) {
        proof {
            lemma_wire_of_well_formed(STATUS_OK, CONTENT_TYPE_TEXT@, encode_utf8(self@));
        }
        let bytes = bytes_from_string(self);
        let length = bytes.len();
        Ok(respond(STATUS_OK, CONTENT_TYPE_TEXT, length, Body::once(bytes)))
    }
}

impl Response for &'static str {
    /// Status 200 and the text in UTF-8.
    open spec fn response(self) -> Result<Wire, BoxError> {
        Ok(wire_of(STATUS_OK, CONTENT_TYPE_TEXT@, encode_utf8(self@)))
    }

    fn into_response(self) -> (converted: Result<HttpResponse<Body>, BoxError>) {
        proof {
            lemma_wire_of_well_formed(STATUS_OK, CONTENT_TYPE_TEXT@, encode_utf8(self@));
        }
        let bytes = bytes_from_static(self);
        let length = bytes.len();
        Ok(respond(STATUS_OK, CONTENT_TYPE_TEXT, length, Body::once(bytes)))
    }
}

impl Response for Vec<u8> {
    /// Status 200 and the bytes, as bytes that are not further described.
    open spec fn response(self) -> Result<Wire, BoxError> {
        Ok(wire_of(STATUS_OK, CONTENT_TYPE_BYTES@, self@))
    }

    fn into_response(self) -> (converted: Result<HttpResponse<Body>, BoxError>) {
        proof {
            lemma_wire_of_well_formed(STATUS_OK, CONTENT_TYPE_BYTES@, self@);
        }
        let bytes = bytes_from_vec(self);
        let length = bytes.len();
        Ok(respond(STATUS_OK, CONTENT_TYPE_BYTES, length, Body::once(bytes)))
    }
}

impl Response for BoxError {
    /// The status of the error and its text in UTF-8.
    open spec fn response(self) -> Result<Wire, BoxError> {
        Ok(wire_of(self.status_code_spec(), CONTENT_TYPE_TEXT@, encode_utf8(self.message_spec())))
    }

    fn into_response(self) -> (converted: Result<HttpResponse<Body>, BoxError>) {
        proof {
            lemma_wire_of_well_formed(
                self.status_code_spec(),
                CONTENT_TYPE_TEXT@,
                encode_utf8(self.message_spec()),
            );
        }
        let status = self.status_code();
        let bytes = bytes_from_string(self.into_string());
        let length = bytes.len();
        Ok(respond(status, CONTENT_TYPE_TEXT, length, Body::once(bytes)))
    }
}

/// Every error of the pipeline has a response: one that is well formed,
/// with the status of the error, which is 400, 404 or 500, and with the
/// text of the error as its body.
pub proof fn lemma_every_error_has_a_response(error: BoxError)
    ensures
        error.response() matches Ok(wire) && {
            &&& wire.is_well_formed()
            &&& wire.status == error.status_code_spec()
            &&& (wire.status == STATUS_BAD_REQUEST || wire.status == STATUS_NOT_FOUND || wire.status
                == STATUS_INTERNAL_SERVER_ERROR)
            &&& wire.body == encode_utf8(error.message_spec())
        },
{
    lemma_wire_of_well_formed(
        error.status_code_spec(),
        CONTENT_TYPE_TEXT@,
        encode_utf8(error.message_spec()),
    );
}

/// An error never goes out as a success: whatever the error turns into, the
/// response of `Err(error)` does not have the status 200.
pub proof fn lemma_error_is_never_ok<T: Response, E: Response>(error: E)
    ensures
        Err::<T, E>(error).response() matches Ok(wire) ==> wire.status != STATUS_OK,
{
}

} // verus!
