//! What a type has to offer to be the body of a request or of a response.

use vstd::prelude::*;
use vstd::string::StringExecFns;

use crate::error::BoxError;
use crate::response::STATUS_OK;

verus! {

/// A type that describes a body.
pub trait Schema {

}

/// A type that the text of a request body can be read into.
pub trait RequestBody: Schema + Sized {
    /// The content type of the text.
    const CONTENT_TYPE: &'static str;

    /// Whether `value` is what `text` reads as.
    spec fn reads_as(text: Seq<char>, value: Self) -> bool;

    /// Reads the value from the text of the body. A value that comes out is
    /// what the text reads as.
    fn from_string(s: String) -> (value: Result<Self, BoxError>)
        ensures
            value matches Ok(v) ==> Self::reads_as(s@, v),
    ;
}

/// A type that can be written as the text of a response body.
pub trait ResponseBody: Schema + Sized {
    /// The content type of the text.
    const CONTENT_TYPE: &'static str;

    /// The status of a response with such a body.
    const STATUS_CODE: u16;

    /// The text that the value is written as.
    spec fn text(self) -> Seq<char>;

    /// Writes the value as text.
    fn into_string(self) -> (text: String)
        ensures
            text@ == self.text(),
    ;
}

/// A type for the bodies of requests and of responses alike.
pub trait Body: RequestBody + ResponseBody {

}

impl Schema for String {

}

impl RequestBody for String {
    const CONTENT_TYPE: &'static str = "text/plain; charset=utf-8";

    /// A text reads as itself.
    open spec fn reads_as(text: Seq<char>, value: Self) -> bool {
        value@ == text
    }

    /// Every text can be read, and reads as itself.
    fn from_string(s: String) -> (value: Result<Self, BoxError>)
        ensures
            value matches Ok(v) && v == s,
    {
        Ok(s)
    }
}

impl ResponseBody for String {
    const CONTENT_TYPE: &'static str = "text/plain; charset=utf-8";

    const STATUS_CODE: u16 = STATUS_OK;

    open spec fn text(self) -> Seq<char> {
        self@
    }

    fn into_string(self) -> (text: String) {
        self
    }
}

impl<'a> Schema for &'a str {

}

impl<'a> ResponseBody for &'a str {
    const CONTENT_TYPE: &'static str = "text/plain; charset=utf-8";

    const STATUS_CODE: u16 = STATUS_OK;

    open spec fn text(self) -> Seq<char> {
        self@
    }

    fn into_string(self) -> (text: String) {
        String::from_str(self)
    }
}

} // verus!
