//! The signal that tells a running handler that the connection it serves is
//! gone. Nobody stops the handler: it may look at the signal and give up.

use vstd::prelude::*;

use core::future::Future;

verus! {

/// `futures_channel::oneshot::Receiver`, the receiving half of a channel for
/// one message.
#[verifier::external_type_specification]
#[verifier::external_body]
#[verifier::reject_recursive_types(T)]
pub struct ExReceiver<T>(futures_channel::oneshot::Receiver<T>);

/// `futures_channel::oneshot::Sender`, the sending half of a channel for one
/// message.
#[verifier::external_type_specification]
#[verifier::external_body]
#[verifier::reject_recursive_types(T)]
pub struct ExSender<T>(futures_channel::oneshot::Sender<T>);

/// `futures_channel::oneshot::Canceled`, what a receiver gets when its
/// sender is gone.
#[verifier::external_type_specification]
#[verifier::external_body]
pub struct ExCanceled(futures_channel::oneshot::Canceled);

/// `core::task::Context`, what a poll is given to arrange its wake-up.
#[verifier::external_type_specification]
#[verifier::external_body]
pub struct ExContext<'a>(core::task::Context<'a>);

/// `futures_channel::oneshot::channel`. Nothing is claimed of the two
/// halves.
#[verifier::external_body]
fn channel() -> (halves: (
    futures_channel::oneshot::Sender<core::convert::Infallible>,
    futures_channel::oneshot::Receiver<core::convert::Infallible>,
)) {
    futures_channel::oneshot::channel()
}

/// `Future::poll` of `futures_channel::oneshot::Receiver`: whether the
/// channel is closed. No message can arrive, because none can be made.
/// Nothing is claimed of the answer: it depends on what became of the
/// sender.
#[verifier::external_body]
fn poll_receiver(
    receiver: &mut futures_channel::oneshot::Receiver<core::convert::Infallible>,
    cx: &mut core::task::Context<'_>,
) -> (closed: bool) {
    match core::pin::Pin::new(receiver).poll(cx) {
        core::task::Poll::Ready(Ok(never)) => match never {
        },
        core::task::Poll::Ready(Err(futures_channel::oneshot::Canceled)) => true,
        core::task::Poll::Pending => false,
    }
}

/// The half of the signal that the handler holds. It is closed once the
/// other half is gone, and stays closed.
#[derive(Debug)]
pub struct ConnectionClosed {
    receiver: futures_channel::oneshot::Receiver<core::convert::Infallible>,
    closed: bool,
}

/// The half of the signal that the pipeline holds for as long as it serves
/// the request. Giving it up, by `close` or by dropping it, closes the
/// signal.
#[derive(Debug)]
pub struct ConnectionCloseGuard {
    sender: futures_channel::oneshot::Sender<core::convert::Infallible>,
}

impl ConnectionClosed {
    /// Whether the signal has been seen closed.
    pub closed spec fn seen_closed(&self) -> bool {
        self.closed
    }

    /// A signal, not yet seen closed, and the guard that keeps it open.
    pub fn new() -> (halves: (ConnectionClosed, ConnectionCloseGuard))
        ensures
            !halves.0.seen_closed(),
    {
        let (sender, receiver) = channel();
        (ConnectionClosed { receiver, closed: false }, ConnectionCloseGuard { sender })
    }

    /// Looks at the signal: `true` if it is closed; `false` if it is still
    /// open, in which case `cx` is woken when it closes. A signal that was
    /// seen closed is closed at every later look.
    pub fn poll(&mut self, cx: &mut core::task::Context<'_>) -> (closed: bool)
        ensures
            old(self).seen_closed() ==> closed,
            final(self).seen_closed() == closed,
    {
        if self.closed {
            return true;
        }
        let closed = poll_receiver(&mut self.receiver, cx);
        self.closed = closed;
        closed
    }
}

impl ConnectionCloseGuard {
    /// Closes the signal. Dropping the guard does the same.
    pub fn close(self) {
    }
}

} // verus!
