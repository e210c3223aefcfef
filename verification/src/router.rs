//! Routing: which handler takes a request, and what comes back from it.

use std::sync::Arc;

use vstd::prelude::*;
use vstd::string::StringExecFns;
use vstd::utf8::encode_utf8;

use crate::closed::ConnectionCloseGuard;
use crate::closed::ConnectionClosed;
use crate::error::BoxError;
use crate::path::split;
use crate::path::split_spec;
use crate::path::views;
use crate::path::SLASH;
use crate::request::Method;
use crate::request::Request;
use crate::response::HttpResponse;
use crate::router::parse::argument_views;
use crate::router::parse::Argument;
use crate::router::parse::Parsed;

pub mod extract;
pub mod parse;
pub mod pattern;
pub mod server;

verus! {

/// What a handler gives: a response with a text body, or an error.
pub type RespResult = Result<HttpResponse<String>, BoxError>;

/// The handler was torn down before it gave a result: the task that ran it
/// was cancelled or panicked. This is not an error of the handler's own.
#[derive(Debug, PartialEq, Eq)]
pub struct ErrorJoin {
    source: String,
}

impl ErrorJoin {
    /// An error for a task that ended as `source` says.
    pub fn new(source: String) -> (error: Self)
        ensures
            error.source_spec() == source@,
    {
        ErrorJoin { source }
    }

    /// What the scheduler said of the task's end.
    pub closed spec fn source_spec(&self) -> Seq<char> {
        self.source@
    }

    /// The text of this error.
    pub open spec fn message_spec(&self) -> Seq<char> {
        self.source_spec()
    }

    /// The text of this error.
    pub fn message(&self) -> (text: String)
        ensures
            text@ == self.message_spec(),
    {
        String::from_str(self.source.as_str())
    }
}

/// The segments of the path of a request: what stands behind the leading
/// `/`, split at every `/`. A path without a leading `/` has none.
pub open spec fn segments_spec(path: Seq<u8>) -> Option<Seq<Seq<u8>>> {
    if path.len() > 0 && path[0] == SLASH {
        Some(split_spec(path.drop_first(), SLASH))
    } else {
        None
    }
}

/// Splits the path of a request into its segments.
pub fn segments(path: &[u8]) -> (pieces: Option<Vec<Vec<u8>>>)
    ensures
        match pieces {
            Some(p) => segments_spec(path@) == Some(views(p@)),
            None => segments_spec(path@) is None,
        },
{
    if path.len() > 0 && path[0] == SLASH {
        let rest = vstd::slice::slice_subrange(path, 1, path.len());
        assert(rest@ =~= path@.drop_first());
        Some(split(rest, SLASH))
    } else {
        None
    }
}

/// The handler that takes a request, and what it is given.
#[derive(Debug)]
pub struct Routed {
    /// The place of the handler in the route table.
    pub handler: usize,
    /// The arguments for its parameters.
    pub arguments: Vec<Argument>,
}

impl Parsed {
    /// Whether no handler before `end` takes a request with this method and
    /// these segments.
    pub open spec fn none_takes_before(&self, end: int, method: Method, segs: Seq<Seq<u8>>) -> bool {
        forall|j: int| 0 <= j < end ==> !(#[trigger] self.handlers@[j]).takes(method, segs)
    }

    /// Finds the handler for a request: the first, in the order of the
    /// table, that takes its method and path. `None` means that no handler
    /// takes the request, and that it goes to the handler for what is not
    /// found; a path without a leading `/` is taken by none.
    pub fn route(&self, method: Method, path: &[u8]) -> (routed: Option<Routed>)
        ensures
            match routed {
                Some(found) => {
                    &&& segments_spec(path@) matches Some(segs)
                    &&& found.handler < self.handlers@.len()
                    &&& self.handlers@[found.handler as int].takes(method, segs)
                    &&& self.none_takes_before(found.handler as int, method, segs)
                    &&& argument_views(found.arguments@) == self.handlers@[found.handler as int].arguments(
                        segs,
                    )
                },
                None => segments_spec(path@) matches Some(segs) ==> self.none_takes_before(
                    self.handlers@.len() as int,
                    method,
                    segs,
                ),
            },
    {
        let pieces = match segments(path) {
            Some(pieces) => pieces,
            None => {
                return None;
            },
        };
        let mut i: usize = 0;
        while i < self.handlers.len()
            invariant
                i <= self.handlers.len(),
                segments_spec(path@) == Some(views(pieces@)),
                self.none_takes_before(i as int, method, views(pieces@)),
            decreases self.handlers.len() - i,
        {
            match self.handlers[i].bind(method, &pieces) {
                Some(arguments) => {
                    return Some(Routed { handler: i, arguments });
                },
                None => {},
            }
            i = i + 1;
        }
        None
    }
}

impl Parsed {
    /// Finds the handler for `request` by its method and its path.
    pub fn route_request<B>(&self, request: &Request<B>) -> (routed: Option<Routed>)
        ensures
            match routed {
                Some(found) => {
                    &&& segments_spec(encode_utf8(request.head.path@)) matches Some(segs)
                    &&& found.handler < self.handlers@.len()
                    &&& self.handlers@[found.handler as int].takes(request.head.method, segs)
                    &&& self.none_takes_before(found.handler as int, request.head.method, segs)
                    &&& argument_views(found.arguments@) == self.handlers@[found.handler as int].arguments(
                        segs,
                    )
                },
                None => segments_spec(encode_utf8(request.head.path@)) matches Some(segs)
                    ==> self.none_takes_before(
                    self.handlers@.len() as int,
                    request.head.method,
                    segs,
                ),
            },
    {
        self.route(request.head.method, request.head.path.as_str().as_bytes())
    }
}

/// What awaiting a dispatched handler gives. The task that ran the handler
/// either ended with the handler's own result, or was torn down before the
/// handler gave one; the second is reported as `ErrorJoin`, apart from any
/// error of the handler.
pub fn join(outcome: Result<RespResult, ErrorJoin>) -> (result: RespResult)
    ensures
        result == match outcome {
            Ok(given) => given,
            Err(torn) => Err(BoxError::Join(torn)),
        },
{
    match outcome {
        Ok(given) => given,
        Err(torn) => Err(BoxError::Join(torn)),
    }
}

/// `Arc::clone`. Believed of it: the clone points at the value that the
/// pointer it was made from points at.
#[verifier::external_body]
fn share<App>(app: &Arc<App>) -> (shared: Arc<App>)
    ensures
        shared == *app,
{
    Arc::clone(app)
}

/// The application and the function that starts a handler for a request.
///
/// `handler` is called with the application, the request and the signal that
/// tells of the connection's end. It has to start the handler as a task of
/// its own, which runs on whether or not anybody waits for it, and return
/// the handle of that task.
#[derive(Debug, Clone)]
pub struct Router<App, H> {
    /// The application, shared by all its handlers.
    pub app: Arc<App>,
    /// Starts the handler for a request and returns the handle of its task.
    pub handler: H,
}

/// A dispatched request: the handle `J` of the task that runs the handler,
/// and the guard of the signal that the handler holds. Dropping it closes
/// the signal and leaves the task alone.
#[derive(Debug)]
pub struct CallFuture<J> {
    handle: J,
    guard: ConnectionCloseGuard,
}

impl<App, H> Router<App, H> {
    /// Dispatches a request: a fresh signal is made, `handler` is called
    /// with the application, the request as it is and the open signal, and
    /// the handle that it returned is kept together with the guard of the
    /// signal.
    pub fn call<J>(&mut self, request: Request<String>) -> (future: CallFuture<J>) where
        H: Fn(Arc<App>, Request<String>, ConnectionClosed) -> J,

        requires
            forall|app: Arc<App>, request: Request<String>, closed: ConnectionClosed|
                old(self).handler.requires((app, request, closed)),
        ensures
            final(self).app == old(self).app,
            final(self).handler == old(self).handler,
            exists|closed: ConnectionClosed|
                !closed.seen_closed() && (#[trigger] old(self).handler.ensures(
                    (old(self).app, request, closed),
                    future.handle_spec(),
                )),
    {
        let (closed, guard) = ConnectionClosed::new();
        let ghost open = closed;
        let handle = (self.handler)(share(&self.app), request, closed);
        let future = CallFuture { handle, guard };
        assert(old(self).handler.ensures((old(self).app, request, open), future.handle_spec()));
        future
    }
}

impl<J> CallFuture<J> {
    /// The handle of the task that runs the handler.
    pub closed spec fn handle_spec(&self) -> J {
        self.handle
    }

    /// The handle of the task that runs the handler, for the driver to poll
    /// it. What the task gave goes through `join`.
    pub fn handle_mut(&mut self) -> (handle: &mut J)
        ensures
            *handle == old(self).handle_spec(),
            final(self).handle_spec() == *final(handle),
    {
        &mut self.handle
    }
}

} // verus!
