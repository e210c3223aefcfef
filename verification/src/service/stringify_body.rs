//! Buffering of a streamed request body into one text.

use vstd::prelude::*;
use vstd::string::StringExecFns;
use vstd::utf8::decode_utf8;
use vstd::utf8::encode_utf8;
use vstd::utf8::valid_utf8;

use crate::error::BoxError;
use crate::request::declared_length;
use crate::request::declared_length_spec;
use crate::request::Declared;
use crate::request::Parts;
use crate::request::Request;
use crate::response::body::bytes_from_string;
use crate::response::Body;
use crate::response::HttpResponse;
use crate::service::PolledAfterComplete;

verus! {

/// `std::string::FromUtf8Error`, what `String::from_utf8` returns for bytes
/// that are not UTF-8.
#[verifier::external_type_specification]
#[verifier::external_body]
pub struct ExFromUtf8Error(std::string::FromUtf8Error);

/// The body could not be read from the transport.
#[derive(Debug, PartialEq, Eq)]
pub struct ErrorReadRequest {
    source: String,
}

impl ErrorReadRequest {
    /// An error for a read that failed with what `source` says.
    pub fn new(source: String) -> (error: Self)
        ensures
            error.source_spec() == source@,
    {
        ErrorReadRequest { source }
    }

    /// What the transport said of the failure.
    pub closed spec fn source_spec(&self) -> Seq<char> {
        self.source@
    }

    /// The text of this error.
    pub open spec fn message_spec(&self) -> Seq<char> {
        "Failed to read request body - "@ + self.source_spec()
    }

    /// The text of this error.
    pub fn message(&self) -> (text: String)
        ensures
            text@ == self.message_spec(),
    {
        let mut text = String::from_str("Failed to read request body - ");
        text.append(self.source.as_str());
        text
    }
}

/// The body was read to its end and is not UTF-8.
#[derive(Debug)]
pub struct ErrorNotUtf8 {
    source: std::string::FromUtf8Error,
    detail: String,
}

impl ErrorNotUtf8 {
    /// The failure of the decoder.
    pub closed spec fn source_spec(&self) -> std::string::FromUtf8Error {
        self.source
    }

    /// An error for the decoding failure `source`, with what the failure
    /// says of itself as its detail.
    pub fn new(source: std::string::FromUtf8Error) -> (error: Self)
        ensures
            error.source_spec() == source,
    {
        let detail = source.to_string();
        ErrorNotUtf8 { source, detail }
    }

    /// What the decoder said of the failure.
    pub closed spec fn detail_spec(&self) -> Seq<char> {
        self.detail@
    }

    /// The text of this error.
    pub open spec fn message_spec(&self) -> Seq<char> {
        "Request body is not a valid UTF-8 sequence - "@ + self.detail_spec()
    }

    /// The text of this error.
    pub fn message(&self) -> (text: String)
        ensures
            text@ == self.message_spec(),
    {
        let mut text = String::from_str("Request body is not a valid UTF-8 sequence - ");
        text.append(self.detail.as_str());
        text
    }

    /// The failure of the decoder, which still holds the bytes of the body.
    pub fn into_source(self) -> (source: std::string::FromUtf8Error)
        ensures
            source == self.source_spec(),
    {
        self.source
    }
}

/// `String::from_utf8`. Believed of it: it succeeds exactly on bytes that are
/// UTF-8, and the text it then returns is what those bytes encode.
#[verifier::external_body]
pub(crate) fn string_from_utf8(bytes: Vec<u8>) -> (text: Result<String, std::string::FromUtf8Error>)
    ensures
        text is Ok <==> valid_utf8(bytes@),
        text matches Ok(t) ==> t@ == decode_utf8(bytes@),
{
    String::from_utf8(bytes)
}

/// The configuration of the stage. It has nothing to configure.
#[derive(Debug, Clone, Copy)]
pub struct Layer;

impl Layer {
    /// Puts the stage in front of `inner`.
    pub fn layer<T>(&self, inner: T) -> (service: Service<T>)
        ensures
            service.inner_spec() == inner,
    {
        Service { inner }
    }
}

/// The stage in front of the service `inner`, which takes requests whose
/// body is one text.
#[derive(Debug, Clone)]
pub struct Service<T> {
    inner: T,
}

/// The most that is set aside for a body before any of it has arrived,
/// whatever the request declares.
pub const PREALLOCATION_LIMIT: usize = 65536;

/// The length that a request declares, if it declares one that is a number.
pub open spec fn length_hint_spec(head: Parts) -> Option<usize> {
    match declared_length_spec(head.headers) {
        Declared::Length(n) => Some(n),
        _ => None,
    }
}

/// The length that `request` declares, as a hint for the size of its body.
/// The body may turn out shorter or longer.
pub fn length_hint<B>(request: &Request<B>) -> (hint: Option<usize>)
    ensures
        hint == length_hint_spec(request.head),
{
    match declared_length(&request.head.headers) {
        Declared::Length(n) => Some(n),
        _ => None,
    }
}

impl<T> Service<T> {
    /// The service behind the stage.
    pub closed spec fn inner_spec(&self) -> T {
        self.inner
    }

    /// The stage in front of `inner`.
    pub fn new(inner: T) -> (service: Self)
        ensures
            service.inner_spec() == inner,
    {
        Self { inner }
    }

    /// The configuration of the stage.
    pub fn layer() -> Layer {
        Layer
    }

    /// The service behind the stage.
    pub fn get_ref(&self) -> (inner: &T)
        ensures
            *inner == self.inner_spec(),
    {
        &self.inner
    }

    /// The service behind the stage, to change it.
    pub fn get_mut(&mut self) -> (inner: &mut T)
        ensures
            *inner == old(self).inner_spec(),
            final(self).inner_spec() == *final(inner),
    {
        &mut self.inner
    }

    /// Gives up the stage for the service behind it.
    pub fn into_inner(self) -> (inner: T)
        ensures
            inner == self.inner_spec(),
    {
        self.inner
    }
}

impl<T: Clone> Service<T> {
    /// Starts a call: nothing of the body is read yet. The call takes the
    /// service that stood behind the stage, and a clone of it stands there
    /// from now on.
    pub fn call<B, F>(&mut self, request: Request<B>) -> (call: CallFuture<B, T, F>)
        ensures
            call is Reading,
            call->head == request.head,
            call->body == request.body,
            call->inner == old(self).inner_spec(),
            call.buffered() == Seq::<u8>::empty(),
            cloned(old(self).inner_spec(), final(self).inner_spec()),
    {
        let capacity = match length_hint(&request) {
            Some(n) => if n <= PREALLOCATION_LIMIT {
                n
            } else {
                PREALLOCATION_LIMIT
            },
            None => 0,
        };
        let buf: Vec<u8> = Vec::with_capacity(capacity);
        let (head, body) = request.into_parts();
        let mut inner = self.inner.clone();
        // the call takes the service that was made ready, not the fresh clone
        core::mem::swap(&mut self.inner, &mut inner);
        CallFuture::Reading { head, body, buf, inner }
    }
}

/// A call of the stage under way.
#[derive(Debug)]
pub enum CallFuture<B, T, F> {
    /// The body is being read: `buf` holds what has arrived of it.
    Reading { head: Parts, body: B, buf: Vec<u8>, inner: T },
    /// The body was read and handed on; `F` is the call of the service
    /// behind the stage.
    Pending(F),
    /// The error to report. Once the call has given its result,
    /// `PolledAfterComplete` stands here.
    Failed(BoxError),
}

/// What the driver of a call has to poll next.
#[derive(Debug, Clone, Copy, PartialEq, Eq, Structural)]
pub enum Wait {
    /// The body of the request, for `read`.
    Body,
    /// The call of the service behind the stage, for `respond`.
    Inner,
    /// Nothing: `poll_failed` gives the result.
    Nothing,
}

/// What is buffered once `chunk` has arrived after `buffered`.
pub open spec fn after_chunk(buffered: Seq<u8>, chunk: Seq<u8>) -> Seq<u8> {
    buffered + chunk
}

/// The text that a body of these bytes is, if it is one.
pub open spec fn decoded(bytes: Seq<u8>) -> Option<Seq<char>> {
    if valid_utf8(bytes) {
        Some(decode_utf8(bytes))
    } else {
        None
    }
}

/// What is buffered once all of `chunks` have arrived, one after the other,
/// after `buffered`.
pub open spec fn after_chunks(buffered: Seq<u8>, chunks: Seq<Seq<u8>>) -> Seq<u8>
    decreases chunks.len(),
{
    if chunks.len() == 0 {
        buffered
    } else {
        after_chunks(after_chunk(buffered, chunks[0]), chunks.drop_first())
    }
}

/// What is buffered after a run of chunks is what was buffered before,
/// followed by the bytes of the chunks in their order.
pub proof fn lemma_chunks_concatenate(buffered: Seq<u8>, chunks: Seq<Seq<u8>>)
    ensures
        after_chunks(buffered, chunks) == buffered + chunks.flatten(),
    decreases chunks.len(),
{
    if chunks.len() == 0 {
        assert(buffered + chunks.flatten() =~= buffered);
    } else {
        lemma_chunks_concatenate(after_chunk(buffered, chunks[0]), chunks.drop_first());
        assert(chunks.flatten() =~= chunks[0] + chunks.drop_first().flatten());
        assert((buffered + chunks[0]) + chunks.drop_first().flatten() =~= buffered
            + chunks.flatten());
    }
}

/// How a body is cut into chunks makes no difference: two runs of chunks
/// that carry the same bytes leave the same bytes buffered, and so give the
/// same text, or both none.
pub proof fn lemma_chunking_is_immaterial(first: Seq<Seq<u8>>, second: Seq<Seq<u8>>)
    requires
        first.flatten() == second.flatten(),
    ensures
        after_chunks(Seq::empty(), first) == first.flatten(),
        after_chunks(Seq::empty(), first) == after_chunks(Seq::empty(), second),
        decoded(after_chunks(Seq::empty(), first)) == decoded(after_chunks(Seq::empty(), second)),
{
    lemma_chunks_concatenate(Seq::empty(), first);
    lemma_chunks_concatenate(Seq::empty(), second);
    assert(Seq::<u8>::empty() + first.flatten() =~= first.flatten());
    assert(Seq::<u8>::empty() + second.flatten() =~= second.flatten());
}

/// A text that was decoded says exactly what the bytes said: encoded again
/// it gives the bytes, so nothing was dropped, added or replaced.
pub proof fn lemma_decoded_is_exact(bytes: Seq<u8>)
    ensures
        decoded(bytes) matches Some(text) ==> encode_utf8(text) == bytes,
{
    if valid_utf8(bytes) {
        vstd::utf8::decode_utf8_encode_utf8(bytes);
    }
}

/// Gives a response with a text body a body that the transport can stream:
/// the same status and headers, and the bytes of the text.
pub fn restream(response: HttpResponse<String>) -> (streamed: HttpResponse<Body>)
    ensures
        streamed.status == response.status,
        streamed.headers == response.headers,
        streamed.body@ == encode_utf8(response.body@),
{
    let HttpResponse { status, headers, body } = response;
    HttpResponse { status, headers, body: Body::once(bytes_from_string(body)) }
}

impl<B, T, F> CallFuture<B, T, F> {
    /// The bytes of the body that have arrived so far.
    pub open spec fn buffered(&self) -> Seq<u8> {
        match self {
            CallFuture::Reading { buf, .. } => buf@,
            _ => Seq::empty(),
        }
    }

    /// Whether the call has given its result, so that driving it again is an
    /// error of the driver.
    pub open spec fn is_complete(&self) -> bool {
        *self == CallFuture::<B, T, F>::Failed(BoxError::PolledAfterComplete(PolledAfterComplete))
    }

    /// What the driver has to poll next.
    pub fn waits_for(&self) -> (wait: Wait)
        ensures
            wait == match self {
                CallFuture::Reading { .. } => Wait::Body,
                CallFuture::Pending(_) => Wait::Inner,
                CallFuture::Failed(_) => Wait::Nothing,
            },
    {
        match self {
            CallFuture::Reading { .. } => Wait::Body,
            CallFuture::Pending(_) => Wait::Inner,
            CallFuture::Failed(_) => Wait::Nothing,
        }
    }

    /// The body of the request, for the driver to poll it.
    pub fn body_mut(&mut self) -> (body: Option<&mut B>)
        ensures
            match *old(self) {
                CallFuture::Reading { head, body: held, buf, inner } => body matches Some(b) && *b
                    == held && *final(self) == (CallFuture::<B, T, F>::Reading {
                    head,
                    body: *final(b),
                    buf,
                    inner,
                }),
                _ => body is None && *final(self) == *old(self),
            },
    {
        match self {
            CallFuture::Reading { body, .. } => Some(body),
            _ => None,
        }
    }

    /// The call of the service behind the stage, for the driver to poll it.
    pub fn pending_mut(&mut self) -> (call: Option<&mut F>)
        ensures
            match *old(self) {
                CallFuture::Pending(inner) => call matches Some(c) && *c == inner && *final(self)
                    == CallFuture::<B, T, F>::Pending(*final(c)),
                _ => call is None && *final(self) == *old(self),
            },
    {
        match self {
            CallFuture::Pending(call) => Some(call),
            _ => None,
        }
    }

    /// One step of a call that is reading the body, with what the body gave:
    /// a chunk, a failure, or `None` at its end.
    ///
    /// A chunk is appended to what is buffered. A failure ends the call with
    /// `ErrorReadRequest`. At the end, what is buffered is decoded: if it is
    /// not UTF-8 the call ends with `ErrorNotUtf8`; if it is, `call` is
    /// handed the service behind the stage and the request with the text as
    /// its body, and the call waits for what `call` returned.
    ///
    /// A call that is not reading the body stays as it is.
    pub fn read<C: FnOnce(T, Request<String>) -> F>(
        &mut self,
        data: Option<Result<&[u8], ErrorReadRequest>>,
        call: C,
    )
        requires
            forall|inner: T, request: Request<String>| call.requires((inner, request)),
        ensures
            match *old(self) {
                CallFuture::Reading { head, body, buf, inner } => match data {
                    Some(Ok(chunk)) => {
                        &&& *final(self) is Reading
                        &&& final(self)->head == head
                        &&& final(self)->body == body
                        &&& final(self)->inner == inner
                        &&& final(self).buffered() == after_chunk(buf@, chunk@)
                    },
                    Some(Err(error)) => *final(self) == CallFuture::<B, T, F>::Failed(
                        BoxError::ReadRequest(error),
                    ),
                    None => match decoded(buf@) {
                        Some(text) => {
                            &&& *final(self) matches CallFuture::Pending(pending)
                            &&& exists|request: Request<String>|
                                {
                                    &&& request.head == head
                                    &&& request.body@ == text
                                    &&& encode_utf8(request.body@) == buf@
                                    &&& call.ensures((inner, request), pending)
                                }
                        },
                        None => *final(self) matches CallFuture::Failed(BoxError::NotUtf8(_)),
                    },
                },
                _ => *final(self) == *old(self),
            },
    {
        let mut state = CallFuture::Failed(BoxError::PolledAfterComplete(PolledAfterComplete));
        core::mem::swap(self, &mut state);
        match state {
            CallFuture::Reading { head, body, mut buf, inner } => match data {
                Some(Ok(chunk)) => {
                    let ghost before = buf@;
                    buf.extend_from_slice(chunk);
                    assert(buf@ =~= after_chunk(before, chunk@));
                    *self = CallFuture::Reading { head, body, buf, inner };
                },
                Some(Err(error)) => {
                    *self = CallFuture::Failed(BoxError::ReadRequest(error));
                },
                None => {
                    let ghost bytes = buf@;
                    match string_from_utf8(buf) {
                        Ok(text) => {
                            proof {
                                vstd::utf8::decode_utf8_encode_utf8(bytes);
                            }
                            let request = Request::from_parts(head, text);
                            let pending = call(inner, request);
                            *self = CallFuture::Pending(pending);
                        },
                        Err(source) => {
                            *self = CallFuture::Failed(BoxError::NotUtf8(ErrorNotUtf8::new(source)));
                        },
                    }
                },
            },
            other => {
                *self = other;
            },
        }
    }

    /// One step of a call that waits for the service behind the stage, with
    /// what that service gave. A response is the result of the call, with its
    /// text as a body to stream, and the call is complete. An error is kept,
    /// to be reported by `poll_failed`.
    ///
    /// A call that does not wait for the service stays as it is and gives
    /// `None`.
    pub fn respond(&mut self, output: Result<HttpResponse<String>, BoxError>) -> (ready: Option<
        HttpResponse<Body>,
    >)
        ensures
            match *old(self) {
                CallFuture::Pending(_) => match output {
                    Ok(response) => {
                        &&& ready matches Some(streamed)
                        &&& streamed.status == response.status
                        &&& streamed.headers == response.headers
                        &&& streamed.body@ == encode_utf8(response.body@)
                        &&& final(self).is_complete()
                    },
                    Err(error) => ready is None && *final(self) == CallFuture::<B, T, F>::Failed(
                        error,
                    ),
                },
                _ => ready is None && *final(self) == *old(self),
            },
    {
        let mut state = CallFuture::Failed(BoxError::PolledAfterComplete(PolledAfterComplete));
        core::mem::swap(self, &mut state);
        match state {
            CallFuture::Pending(_) => match output {
                Ok(response) => Some(restream(response)),
                Err(error) => {
                    *self = CallFuture::Failed(error);
                    None
                },
            },
            other => {
                *self = other;
                None
            },
        }
    }

    /// One step of a call that has failed: the error that it holds is given
    /// out, and `PolledAfterComplete` is left in its place, so that a call
    /// that is driven after its end says so. A call that has not failed gives
    /// `None` and stays as it is.
    pub fn poll_failed(&mut self) -> (error: Option<BoxError>)
        ensures
            match *old(self) {
                CallFuture::Failed(held) => error == Some(held) && final(self).is_complete(),
                _ => error is None && *final(self) == *old(self),
            },
            old(self).is_complete() ==> error == Some(
                BoxError::PolledAfterComplete(PolledAfterComplete),
            ),
    {
        let mut state = CallFuture::Failed(BoxError::PolledAfterComplete(PolledAfterComplete));
        core::mem::swap(self, &mut state);
        match state {
            CallFuture::Failed(held) => Some(held),
            other => {
                *self = other;
                None
            },
        }
    }
}

} // verus!
