//! Admission by declared length: a request is let through only if it says how
//! long its body is and that length is within the limit. The body itself is
//! never touched here.

use vstd::prelude::*;
use vstd::string::StringExecFns;

use crate::decimal::decimal_chars;
use crate::decimal::to_decimal;
use crate::error::BoxError;
use crate::request::declared_length;
use crate::request::declared_length_spec;
use crate::request::Declared;
use crate::request::Request;
use crate::service::PolledAfterComplete;

verus! {

/// The declared length is over the limit.
#[derive(Debug, Clone, Copy, PartialEq, Eq, Structural)]
pub struct ErrorTooLarge {
    limit: usize,
    found: usize,
}

impl ErrorTooLarge {
    /// The limit that was in force.
    pub closed spec fn limit_spec(&self) -> usize {
        self.limit
    }

    /// The length that the request declared.
    pub closed spec fn found_spec(&self) -> usize {
        self.found
    }

    /// An error for a request that declared `found` bytes under a limit of
    /// `limit`.
    pub fn new(limit: usize, found: usize) -> (error: Self)
        ensures
            error.limit_spec() == limit,
            error.found_spec() == found,
    {
        ErrorTooLarge { limit, found }
    }

    /// The limit that was in force.
    pub fn limit(&self) -> (limit: usize)
        ensures
            limit == self.limit_spec(),
    {
        self.limit
    }

    /// The length that the request declared.
    pub fn found(&self) -> (found: usize)
        ensures
            found == self.found_spec(),
    {
        self.found
    }

    /// The text of this error.
    pub open spec fn message_spec(&self) -> Seq<char> {
        "HTTP Request has too large Content-Length - limit: "@ + decimal_chars(
            self.limit_spec() as nat,
        ) + ", found: "@ + decimal_chars(self.found_spec() as nat)
    }

    /// The text of this error.
    pub fn message(&self) -> (text: String)
        ensures
            text@ == self.message_spec(),
    {
        let mut text = String::from_str("HTTP Request has too large Content-Length - limit: ");
        let limit = to_decimal(self.limit);
        text.append(limit.as_str());
        text.append(", found: ");
        let found = to_decimal(self.found);
        text.append(found.as_str());
        text
    }
}

/// The request does not declare the length of its body.
#[derive(Debug, Clone, Copy, PartialEq, Eq, Structural)]
pub struct ErrorNotFound;

impl ErrorNotFound {
    /// The text of this error.
    pub open spec fn message_spec() -> Seq<char> {
        "HTTP Request doesn't contains the Content-Type header"@
    }

    /// The text of this error.
    pub fn message(&self) -> (text: String)
        ensures
            text@ == Self::message_spec(),
    {
        String::from_str("HTTP Request doesn't contains the Content-Type header")
    }
}

/// The declared length is not an unsigned decimal number.
#[derive(Debug, Clone, Copy, PartialEq, Eq, Structural)]
pub struct ErrorInvalidValue;

impl ErrorInvalidValue {
    /// The text of this error.
    pub open spec fn message_spec() -> Seq<char> {
        "HTTP Request contains the Content-Type header with non-integral value"@
    }

    /// The text of this error.
    pub fn message(&self) -> (text: String)
        ensures
            text@ == Self::message_spec(),
    {
        String::from_str("HTTP Request contains the Content-Type header with non-integral value")
    }
}

/// The configuration of the stage: the greatest length that a request may
/// declare.
#[derive(Debug, Clone, Copy)]
pub struct Layer {
    limit: usize,
}

impl Layer {
    /// The limit, in bytes.
    pub closed spec fn limit_spec(&self) -> usize {
        self.limit
    }

    /// A stage that lets through what declares at most `limit` bytes.
    pub fn new(limit: usize) -> (layer: Self)
        ensures
            layer.limit_spec() == limit,
    {
        Self { limit }
    }

    /// Puts the stage in front of `inner`.
    pub fn layer<T>(&self, inner: T) -> (service: Service<T>)
        ensures
            service.inner_spec() == inner,
            service.limit_spec() == self.limit_spec(),
    {
        Service { inner, limit: self.limit }
    }
}

/// The stage in front of the service `inner`.
#[derive(Debug, Clone)]
pub struct Service<T> {
    inner: T,
    limit: usize,
}

/// Whether a request with this declared length is let through under `limit`.
pub open spec fn admits(declared: Declared, limit: usize) -> bool {
    declared matches Declared::Length(n) && n <= limit
}

/// Whether `error` is the rejection that a request with this declared
/// length gets under `limit`.
pub open spec fn rejects_with(declared: Declared, limit: usize, error: BoxError) -> bool {
    match declared {
        Declared::Missing => error == BoxError::LengthNotFound(ErrorNotFound),
        Declared::Malformed => error == BoxError::InvalidValue(ErrorInvalidValue),
        Declared::Length(n) => {
            &&& n > limit
            &&& error matches BoxError::TooLarge(e)
            &&& e.limit_spec() == limit
            &&& e.found_spec() == n
        },
    }
}

impl<T> Service<T> {
    /// The service behind the stage.
    pub closed spec fn inner_spec(&self) -> T {
        self.inner
    }

    /// The limit, in bytes.
    pub closed spec fn limit_spec(&self) -> usize {
        self.limit
    }

    /// The stage with this limit in front of `inner`.
    pub fn new(inner: T, limit: usize) -> (service: Self)
        ensures
            service.inner_spec() == inner,
            service.limit_spec() == limit,
    {
        Self { inner, limit }
    }

    /// The configuration of a stage with this limit.
    pub fn layer(limit: usize) -> (layer: Layer)
        ensures
            layer.limit_spec() == limit,
    {
        Layer::new(limit)
    }

    /// The limit, in bytes.
    pub fn limit(&self) -> (limit: usize)
        ensures
            limit == self.limit_spec(),
    {
        self.limit
    }

    /// The service behind the stage.
    pub fn get_ref(&self) -> (inner: &T)
        ensures
            *inner == self.inner_spec(),
    {
        &self.inner
    }

    /// The service behind the stage, to change it.
    pub fn get_mut(&mut self) -> (inner: &mut T)
        ensures
            *inner == old(self).inner_spec(),
            final(self).inner_spec() == *final(inner),
            final(self).limit_spec() == old(self).limit_spec(),
    {
        &mut self.inner
    }

    /// Gives up the stage for the service behind it.
    pub fn into_inner(self) -> (inner: T)
        ensures
            inner == self.inner_spec(),
    {
        self.inner
    }

    /// Decides on a request by what it declares, before anything of its body
    /// is read. A request that declares a length within the limit comes back
    /// as it was, to be handed to the service behind the stage. Every other
    /// request is rejected: without a declared length, with one that is no
    /// number, or with one over the limit.
    pub fn call<U>(&mut self, request: Request<U>) -> (passed: Result<Request<U>, BoxError>)
        ensures
            *final(self) == *old(self),
            passed is Ok <==> admits(
                declared_length_spec(request.head.headers),
                old(self).limit_spec(),
            ),
            match passed {
                Ok(forwarded) => admits(
                    declared_length_spec(request.head.headers),
                    old(self).limit_spec(),
                ) && forwarded == request,
                Err(error) => rejects_with(
                    declared_length_spec(request.head.headers),
                    old(self).limit_spec(),
                    error,
                ),
            },
    {
        match declared_length(&request.head.headers) {
            Declared::Missing => Err(BoxError::LengthNotFound(ErrorNotFound)),
            Declared::Malformed => Err(BoxError::InvalidValue(ErrorInvalidValue)),
            Declared::Length(len) => {
                if len > self.limit {
                    Err(BoxError::TooLarge(ErrorTooLarge { limit: self.limit, found: len }))
                } else {
                    Ok(request)
                }
            },
        }
    }
}

/// A call of the stage under way: it waits for the service behind the stage,
/// or it holds the rejection that is to be reported.
#[derive(Debug)]
pub enum CallFuture<F> {
    /// The request was let through; `F` is the call of the service behind.
    Pending(F),
    /// The error to report. Once it was reported, `PolledAfterComplete`
    /// stands here.
    Failed(BoxError),
}

impl<F> CallFuture<F> {
    /// Whether the call has given its result, so that driving it again is an
    /// error of the driver.
    pub open spec fn is_complete(&self) -> bool {
        *self == CallFuture::<F>::Failed(BoxError::PolledAfterComplete(PolledAfterComplete))
    }

    /// One step of a call that does not wait for the service behind: the
    /// error that it holds is given out, and `PolledAfterComplete` is left in
    /// its place. A call that waits for the service behind gives `None` and
    /// stays as it is: the driver polls that service's call.
    pub fn poll_failed(&mut self) -> (error: Option<BoxError>)
        ensures
            match *old(self) {
                CallFuture::Pending(_) => error is None && *final(self) == *old(self),
                CallFuture::Failed(held) => error == Some(held) && final(self).is_complete(),
            },
            old(self).is_complete() ==> error == Some(
                BoxError::PolledAfterComplete(PolledAfterComplete),
            ),
    {
        let mut state = CallFuture::Failed(BoxError::PolledAfterComplete(PolledAfterComplete));
        core::mem::swap(self, &mut state);
        match state {
            CallFuture::Pending(call) => {
                *self = CallFuture::Pending(call);
                None
            },
            CallFuture::Failed(held) => Some(held),
        }
    }

    /// The call of the service behind the stage, for the driver to poll it.
    pub fn pending_mut(&mut self) -> (call: Option<&mut F>)
        ensures
            match *old(self) {
                CallFuture::Pending(inner) => call matches Some(c) && *c == inner && *final(self)
                    == CallFuture::Pending(*final(c)),
                CallFuture::Failed(_) => call is None && *final(self) == *old(self),
            },
    {
        match self {
            CallFuture::Pending(call) => Some(call),
            CallFuture::Failed(_) => None,
        }
    }

    /// Ends the call with what the service behind the stage gave: the result
    /// is handed on unchanged, and the call is complete.
    pub fn complete<R>(&mut self, output: Result<R, BoxError>) -> (result: Result<R, BoxError>)
        ensures
            result == output,
            final(self).is_complete(),
    {
        *self = CallFuture::Failed(BoxError::PolledAfterComplete(PolledAfterComplete));
        output
    }
}

} // verus!
