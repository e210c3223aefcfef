//! The errors of the pipeline as one type, and what each of them tells the
//! client.

use vstd::prelude::*;
use vstd::string::StringExecFns;

use crate::internal_helper::NotFound;
use crate::internal_helper::ParseFailed;
use crate::response::CONTENT_TYPE_TEXT;
use crate::response::STATUS_BAD_REQUEST;
use crate::response::STATUS_INTERNAL_SERVER_ERROR;
use crate::response::STATUS_NOT_FOUND;
use crate::router::ErrorJoin;
use crate::service::limit_content_length::ErrorInvalidValue;
use crate::service::limit_content_length::ErrorNotFound;
use crate::service::limit_content_length::ErrorTooLarge;
use crate::service::stringify_body::ErrorNotUtf8;
use crate::service::stringify_body::ErrorReadRequest;
use crate::service::PolledAfterComplete;

verus! {

/// The request could not be read into what the handler takes. It holds what
/// each failure said, in the order in which they were found.
#[derive(Debug, PartialEq, Eq)]
pub struct InvalidRequest {
    errors: Vec<String>,
}

/// What an `InvalidRequest` with these failures says: a heading line, then
/// one line for each failure.
pub open spec fn invalid_request_text(errors: Seq<Seq<char>>) -> Seq<char>
    decreases errors.len(),
{
    if errors.len() == 0 {
        "Failed to parse request with the following errors:\n"@
    } else {
        invalid_request_text(errors.drop_last()) + "  - "@ + errors.last() + "\n"@
    }
}

impl InvalidRequest {
    /// What each failure said.
    pub closed spec fn errors_spec(&self) -> Seq<Seq<char>> {
        self.errors@.map_values(|text: String| text@)
    }

    /// The text of this error.
    pub open spec fn message_spec(&self) -> Seq<char> {
        invalid_request_text(self.errors_spec())
    }

    /// The text of this error.
    pub fn message(&self) -> (text: String)
        ensures
            text@ == self.message_spec(),
    {
        let mut text = String::from_str("Failed to parse request with the following errors:\n");
        let mut i: usize = 0;
        assert(self.errors_spec().take(0) =~= Seq::<Seq<char>>::empty());
        while i < self.errors.len()
            invariant
                i <= self.errors.len(),
                self.errors_spec().len() == self.errors.len(),
                text@ == invalid_request_text(self.errors_spec().take(i as int)),
            decreases self.errors.len() - i,
        {
            proof {
                let upto = self.errors_spec().take(i + 1);
                assert(upto.drop_last() =~= self.errors_spec().take(i as int));
                assert(upto.last() == self.errors[i as int]@);
            }
            text.append("  - ");
            text.append(self.errors[i].as_str());
            text.append("\n");
            i = i + 1;
        }
        assert(self.errors_spec().take(i as int) =~= self.errors_spec());
        text
    }
}

/// Any error of the pipeline.
#[derive(Debug)]
pub enum BoxError {
    /// The declared length is over the limit.
    TooLarge(ErrorTooLarge),
    /// The request declares no length.
    LengthNotFound(ErrorNotFound),
    /// The declared length is no number.
    InvalidValue(ErrorInvalidValue),
    /// The body could not be read.
    ReadRequest(ErrorReadRequest),
    /// The body is not UTF-8.
    NotUtf8(ErrorNotUtf8),
    /// A finished call was driven again.
    PolledAfterComplete(PolledAfterComplete),
    /// No route takes the request.
    NotFound(NotFound),
    /// A parameter could not be read from the path.
    ParseFailed(ParseFailed),
    /// The request could not be read into what the handler takes.
    InvalidRequest(InvalidRequest),
    /// The handler was torn down before it gave a result.
    Join(ErrorJoin),
    /// An error of the handler, with its text.
    Other(String),
}

impl BoxError {
    /// The text of this error.
    pub open spec fn message_spec(&self) -> Seq<char> {
        match self {
            BoxError::TooLarge(e) => e.message_spec(),
            BoxError::LengthNotFound(_) => ErrorNotFound::message_spec(),
            BoxError::InvalidValue(_) => ErrorInvalidValue::message_spec(),
            BoxError::ReadRequest(e) => e.message_spec(),
            BoxError::NotUtf8(e) => e.message_spec(),
            BoxError::PolledAfterComplete(_) => PolledAfterComplete::message_spec(),
            BoxError::NotFound(_) => NotFound::message_spec(),
            BoxError::ParseFailed(_) => ParseFailed::message_spec(),
            BoxError::InvalidRequest(e) => e.message_spec(),
            BoxError::Join(e) => e.message_spec(),
            BoxError::Other(text) => text@,
        }
    }

    /// The status that this error is reported with: 400 where the request
    /// itself is at fault, 404 where no route takes it, 500 for the rest.
    pub open spec fn status_code_spec(&self) -> u16 {
        match self {
            BoxError::TooLarge(_) => STATUS_BAD_REQUEST,
            BoxError::LengthNotFound(_) => STATUS_BAD_REQUEST,
            BoxError::InvalidValue(_) => STATUS_BAD_REQUEST,
            BoxError::InvalidRequest(_) => STATUS_BAD_REQUEST,
            BoxError::NotFound(_) => STATUS_NOT_FOUND,
            _ => STATUS_INTERNAL_SERVER_ERROR,
        }
    }

    /// The text of this error.
    pub fn message(&self) -> (text: String)
        ensures
            text@ == self.message_spec(),
    {
        match self {
            BoxError::TooLarge(e) => e.message(),
            BoxError::LengthNotFound(e) => e.message(),
            BoxError::InvalidValue(e) => e.message(),
            BoxError::ReadRequest(e) => e.message(),
            BoxError::NotUtf8(e) => e.message(),
            BoxError::PolledAfterComplete(e) => e.message(),
            BoxError::NotFound(e) => e.message(),
            BoxError::ParseFailed(e) => e.message(),
            BoxError::InvalidRequest(e) => e.message(),
            BoxError::Join(e) => e.message(),
            BoxError::Other(text) => String::from_str(text.as_str()),
        }
    }
}

/// What an error type has to offer for the pipeline to report it.
pub trait Error: Sized {
    /// The status that the error is reported with.
    spec fn reported_status(&self) -> u16;

    /// The text that the error is reported with.
    spec fn reported_text(&self) -> Seq<char>;

    /// The error for a request that could not be read, with the failures
    /// that were found.
    fn invalid_request(errors: Vec<BoxError>) -> (error: Self)
        ensures
            error.reported_status() == STATUS_BAD_REQUEST,
            error.reported_text() == invalid_request_text(
                errors@.map_values(|e: BoxError| e.message_spec()),
            ),
    ;

    /// The status that the error is reported with.
    fn status_code(&self) -> (code: u16)
        ensures
            code == self.reported_status(),
    ;

    /// The content type of the text.
    fn content_type(&self) -> (content_type: &str)
        ensures
            content_type@ == CONTENT_TYPE_TEXT@,
    ;

    /// The text that the error is reported with.
    fn into_string(self) -> (text: String)
        ensures
            text@ == self.reported_text(),
    ;
}

impl Error for BoxError {
    open spec fn reported_status(&self) -> u16 {
        self.status_code_spec()
    }

    open spec fn reported_text(&self) -> Seq<char> {
        self.message_spec()
    }

    fn invalid_request(errors: Vec<BoxError>) -> (error: Self) {
        let mut texts: Vec<String> = Vec::new();
        let mut i: usize = 0;
        let ghost said = errors@.map_values(|e: BoxError| e.message_spec());
        while i < errors.len()
            invariant
                i <= errors.len(),
                said == errors@.map_values(|e: BoxError| e.message_spec()),
                texts@.map_values(|text: String| text@) == said.take(i as int),
            decreases errors.len() - i,
        {
            let text = errors[i].message();
            proof {
                let before = texts@.map_values(|text: String| text@);
                assert(texts@.push(text).map_values(|text: String| text@) =~= before.push(text@));
                assert(said.take(i + 1) =~= said.take(i as int).push(said[i as int]));
            }
            texts.push(text);
            i = i + 1;
        }
        assert(said.take(i as int) =~= said);
        BoxError::InvalidRequest(InvalidRequest { errors: texts })
    }

    fn status_code(&self) -> (code: u16) {
        match self {
            BoxError::TooLarge(_) => STATUS_BAD_REQUEST,
            BoxError::LengthNotFound(_) => STATUS_BAD_REQUEST,
            BoxError::InvalidValue(_) => STATUS_BAD_REQUEST,
            BoxError::InvalidRequest(_) => STATUS_BAD_REQUEST,
            BoxError::NotFound(_) => STATUS_NOT_FOUND,
            _ => STATUS_INTERNAL_SERVER_ERROR,
        }
    }

    fn content_type(&self) -> (content_type: &str) {
        CONTENT_TYPE_TEXT
    }

    fn into_string(self) -> (text: String) {
        self.message()
    }
}

} // verus!
