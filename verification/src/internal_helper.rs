//! What a route table falls back on: the handler for a request that no route
//! takes, and the one for a parameter that could not be read.

use vstd::prelude::*;
use vstd::string::StringExecFns;

use crate::error::BoxError;
use crate::router::RespResult;

verus! {

/// No route takes the request.
#[derive(Debug, Clone, Copy, PartialEq, Eq, Structural)]
pub struct NotFound;

impl NotFound {
    /// The text of this error.
    pub open spec fn message_spec() -> Seq<char> {
        "404 Not Found"@
    }

    /// The text of this error.
    pub fn message(&self) -> (text: String)
        ensures
            text@ == Self::message_spec(),
    {
        String::from_str("404 Not Found")
    }
}

/// The handler of a request that no route takes: it fails with `NotFound`.
pub fn default_404() -> (result: RespResult)
    ensures
        result == Err::<crate::response::HttpResponse<String>, BoxError>(BoxError::NotFound(NotFound)),
{
    Err(BoxError::NotFound(NotFound))
}

/// A segment of the path could not be read as the type of its parameter.
#[derive(Debug, Clone, Copy, PartialEq, Eq, Structural)]
pub struct ParseFailed;

impl ParseFailed {
    /// The text of this error.
    pub open spec fn message_spec() -> Seq<char> {
        "Parameter parse failed"@
    }

    /// The text of this error.
    pub fn message(&self) -> (text: String)
        ensures
            text@ == Self::message_spec(),
    {
        String::from_str("Parameter parse failed")
    }
}

/// The handler of a request whose parameter could not be read: it fails with
/// `ParseFailed`.
pub fn parse_failed() -> (result: RespResult)
    ensures
        result == Err::<crate::response::HttpResponse<String>, BoxError>(
            BoxError::ParseFailed(ParseFailed),
        ),
{
    Err(BoxError::ParseFailed(ParseFailed))
}

} // verus!
