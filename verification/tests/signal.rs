use std::future::poll_fn;
use std::sync::atomic::AtomicBool;
use std::sync::atomic::AtomicUsize;
use std::sync::atomic::Ordering;
use std::sync::Arc;
use std::task::Context;
use std::task::Poll;
use std::task::Waker;

use apiary::closed::ConnectionClosed;
use apiary::error::BoxError;
use apiary::request::Method;
use apiary::request::Parts;
use apiary::request::Request;
use apiary::response::HttpResponse;
use apiary::router::join;
use apiary::router::ErrorJoin;
use apiary::router::RespResult;
use apiary::router::Router;
use http::HeaderMap;
use tokio::runtime::Builder;
use tokio::task::yield_now;
use tokio::task::JoinHandle;

fn request(path: &str, body: &str) -> Request<String> {
    Request::from_parts(
        Parts { method: Method::Get, path: String::from(path), headers: HeaderMap::new() },
        String::from(body),
    )
}

#[test]
fn signal_is_open_while_the_guard_lives() {
    let mut cx = Context::from_waker(Waker::noop());
    let (mut closed, guard) = ConnectionClosed::new();
    assert!(!closed.poll(&mut cx));
    assert!(!closed.poll(&mut cx));
    drop(guard);
    assert!(closed.poll(&mut cx));
}

#[test]
fn dropped_guard_closes_the_signal_for_good() {
    let mut cx = Context::from_waker(Waker::noop());
    let (mut closed, guard) = ConnectionClosed::new();
    drop(guard);
    for _ in 0..5 {
        assert!(closed.poll(&mut cx));
    }
}

#[test]
fn explicit_close_closes_the_signal_for_good() {
    let mut cx = Context::from_waker(Waker::noop());
    let (mut closed, guard) = ConnectionClosed::new();
    assert!(!closed.poll(&mut cx));
    guard.close();
    for _ in 0..5 {
        assert!(closed.poll(&mut cx));
    }
}

#[test]
fn each_signal_has_its_own_guard() {
    let mut cx = Context::from_waker(Waker::noop());
    let (mut first, first_guard) = ConnectionClosed::new();
    let (mut second, second_guard) = ConnectionClosed::new();
    drop(first_guard);
    assert!(first.poll(&mut cx));
    assert!(!second.poll(&mut cx));
    second_guard.close();
    assert!(second.poll(&mut cx));
}

#[test]
fn waiting_handler_is_woken_when_the_signal_closes() {
    let runtime = Builder::new_current_thread().build().unwrap();
    let woken = Arc::new(AtomicUsize::new(0));
    runtime.block_on(async {
        let (mut closed, guard) = ConnectionClosed::new();
        let seen = woken.clone();
        let waiting = tokio::spawn(async move {
            poll_fn(|cx| if closed.poll(cx) { Poll::Ready(()) } else { Poll::Pending }).await;
            seen.fetch_add(1, Ordering::SeqCst);
        });
        for _ in 0..10 {
            yield_now().await;
        }
        assert_eq!(woken.load(Ordering::SeqCst), 0);
        drop(guard);
        waiting.await.unwrap();
    });
    assert_eq!(woken.load(Ordering::SeqCst), 1);
}

#[test]
fn dispatch_hands_app_request_and_open_signal_to_the_handler() {
    let mut cx = Context::from_waker(Waker::noop());
    let mut router = Router {
        app: Arc::new(String::from("the app")),
        handler: |app: Arc<String>, request: Request<String>, closed: ConnectionClosed| {
            (app, request, closed)
        },
    };
    let mut call = router.call(request("/a", "one"));
    {
        let (app, request, closed) = call.handle_mut();
        assert_eq!(app.as_str(), "the app");
        assert_eq!(request.head.path, "/a");
        assert_eq!(request.body, "one");
        assert!(!closed.poll(&mut cx));
    }
    let mut other = router.call(request("/b", "two"));
    assert_eq!(other.handle_mut().1.body, "two");
    assert_eq!(Arc::strong_count(&router.app), 3);
}

#[test]
fn abandoned_dispatch_lets_the_handler_finish_and_closes_its_signal() {
    let runtime = Builder::new_current_thread().build().unwrap();
    let finished = Arc::new(AtomicBool::new(false));
    let saw_closed = Arc::new(AtomicBool::new(false));
    let mut router = Router {
        app: Arc::new((finished.clone(), saw_closed.clone())),
        handler: |app: Arc<(Arc<AtomicBool>, Arc<AtomicBool>)>,
                  request: Request<String>,
                  mut closed: ConnectionClosed|
         -> JoinHandle<RespResult> {
            tokio::spawn(async move {
                // the handler waits until the connection is gone, and
                // still does its work
                poll_fn(|cx| if closed.poll(cx) { Poll::Ready(()) } else { Poll::Pending }).await;
                app.1.store(true, Ordering::SeqCst);
                yield_now().await;
                app.0.store(true, Ordering::SeqCst);
                Ok(HttpResponse::new(request.body))
            })
        },
    };
    runtime.block_on(async {
        let call = router.call(request("/slow", "work"));
        for _ in 0..10 {
            yield_now().await;
        }
        assert!(!saw_closed.load(Ordering::SeqCst));
        assert!(!finished.load(Ordering::SeqCst));
        drop(call);
        for _ in 0..100 {
            if finished.load(Ordering::SeqCst) {
                break;
            }
            yield_now().await;
        }
    });
    assert!(saw_closed.load(Ordering::SeqCst));
    assert!(finished.load(Ordering::SeqCst));
}

#[test]
fn awaited_dispatch_gives_the_result_of_the_handler() {
    let runtime = Builder::new_current_thread().build().unwrap();
    let mut router = Router {
        app: Arc::new(()),
        handler: |_app: Arc<()>, request: Request<String>, _closed: ConnectionClosed| -> JoinHandle<RespResult> {
            tokio::spawn(async move {
                if request.head.path == "/fail" {
                    Err(BoxError::Other(String::from("no")))
                } else {
                    Ok(HttpResponse::new(format!("echo {}", request.body)))
                }
            })
        },
    };
    let (echoed, failed) = runtime.block_on(async {
        let mut call = router.call(request("/echo", "hi"));
        let outcome = call.handle_mut().await;
        let echoed = join(outcome.map_err(|error| ErrorJoin::new(error.to_string())));
        let mut call = router.call(request("/fail", "hi"));
        let outcome = call.handle_mut().await;
        let failed = join(outcome.map_err(|error| ErrorJoin::new(error.to_string())));
        (echoed, failed)
    });
    assert_eq!(echoed.unwrap().body, "echo hi");
    assert!(matches!(failed, Err(BoxError::Other(text)) if text == "no"));
}

#[test]
fn torn_down_task_is_reported_as_such() {
    let runtime = Builder::new_current_thread().build().unwrap();
    let mut router = Router {
        app: Arc::new(()),
        handler: |_app: Arc<()>, _request: Request<String>, _closed: ConnectionClosed| -> JoinHandle<RespResult> {
            let task = tokio::spawn(async move {
                yield_now().await;
                Ok(HttpResponse::new(String::new()))
            });
            task.abort();
            task
        },
    };
    let result = runtime.block_on(async {
        let mut call = router.call(request("/gone", ""));
        let outcome = call.handle_mut().await;
        join(outcome.map_err(|error| ErrorJoin::new(error.to_string())))
    });
    assert!(matches!(result, Err(BoxError::Join(_))));
}
