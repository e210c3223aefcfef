//! What a server answers when nothing in it takes the request.

use vstd::prelude::*;
use vstd::utf8::encode_utf8;

use crate::error::BoxError;
use crate::response::body::bytes_from_static;
use crate::response::lemma_wire_of_well_formed;
use crate::response::respond;
use crate::response::wire_of;
use crate::response::Body;
use crate::response::HttpResponse;
use crate::response::Response;
use crate::response::Wire;
use crate::response::CONTENT_TYPE_TEXT;
use crate::response::STATUS_NOT_FOUND;

pub mod error;

verus! {

/// The answer to a request that nothing takes.
#[derive(Debug, Clone, Copy, PartialEq, Eq, Structural)]
pub struct NotFound;

impl NotFound {
    /// The text of the answer.
    pub open spec fn message_spec() -> Seq<char> {
        "404 Not Found"@
    }
}

impl Response for NotFound {
    /// Status 404 and the text `404 Not Found`.
    open spec fn response(self) -> Result<Wire, BoxError> {
        Ok(wire_of(STATUS_NOT_FOUND, CONTENT_TYPE_TEXT@, encode_utf8(NotFound::message_spec())))
    }

    fn into_response(self) -> (converted: Result<HttpResponse<Body>, BoxError>) {
        proof {
            lemma_wire_of_well_formed(
                STATUS_NOT_FOUND,
                CONTENT_TYPE_TEXT@,
                encode_utf8(NotFound::message_spec()),
            );
        }
        let bytes = bytes_from_static("404 Not Found");
        let length = bytes.len();
        Ok(respond(STATUS_NOT_FOUND, CONTENT_TYPE_TEXT, length, Body::once(bytes)))
    }
}

} // verus!
