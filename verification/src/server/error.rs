//! The errors of a server that hand the request back, so that another
//! server can be tried with it.

use vstd::prelude::*;
use vstd::std_specs::convert::FromSpecImpl;
use vstd::string::StringExecFns;

use crate::request::Request;

verus! {

/// No handler takes the request. The request comes back with the error.
#[derive(Debug)]
pub struct NotFound<B>(pub Request<B>);

impl<B> NotFound<B> {
    /// The text of this error.
    pub open spec fn message_spec() -> Seq<char> {
        "404 Not Found"@
    }

    /// The text of this error.
    pub fn message(&self) -> (text: String)
        ensures
            text@ == Self::message_spec(),
    {
        String::from_str("404 Not Found")
    }
}

impl<B> From<NotFound<B>> for Request<B> {
    fn from(v: NotFound<B>) -> (request: Self) {
        v.0
    }
}

impl<B> FromSpecImpl<NotFound<B>> for Request<B> {
    open spec fn obeys_from_spec() -> bool {
        true
    }

    open spec fn from_spec(v: NotFound<B>) -> Self {
        v.0
    }
}

/// The body of the request cannot be read into what the handler takes. The
/// request comes back with the error.
#[derive(Debug)]
pub struct InvalidBody<B>(pub Request<B>);

impl<B> InvalidBody<B> {
    /// The text of this error.
    pub open spec fn message_spec() -> Seq<char> {
        "500 Bad Request - Invalid body"@
    }

    /// The text of this error.
    pub fn message(&self) -> (text: String)
        ensures
            text@ == Self::message_spec(),
    {
        String::from_str("500 Bad Request - Invalid body")
    }
}

impl<B> From<InvalidBody<B>> for Request<B> {
    fn from(v: InvalidBody<B>) -> (request: Self) {
        v.0
    }
}

impl<B> FromSpecImpl<InvalidBody<B>> for Request<B> {
    open spec fn obeys_from_spec() -> bool {
        true
    }

    open spec fn from_spec(v: InvalidBody<B>) -> Self {
        v.0
    }
}

} // verus!
