use fibers::Executor;
use fibers_tasque::async_call;
use fibers_tasque::translate;
use fibers_tasque::Async;
use fibers_tasque::AsyncCall;
use fibers_tasque::AsyncCallError;
use fibers_tasque::DefaultCpuTaskQueue;
use fibers_tasque::DefaultIoTaskQueue;
use fibers_tasque::QueueSlot;
use fibers_tasque::RecvPoll;
use fibers_tasque::ThreadCache;
use std::sync::atomic::AtomicUsize;
use std::sync::atomic::Ordering;
use std::sync::Arc;

struct CallFuture<T>(AsyncCall<T>);

impl<T> futures::Future for CallFuture<T> {
    type Item = T;
    type Error = AsyncCallError;

    fn poll(&mut self) -> futures::Poll<T, AsyncCallError> {
        match self.0.poll() {
            Ok(Async::Ready(v)) => Ok(futures::Async::Ready(v)),
            Ok(Async::NotReady) => Ok(futures::Async::NotReady),
            Err(e) => Err(e),
        }
    }
}

fn poll_to_completion<T>(mut call: AsyncCall<T>) -> Result<T, AsyncCallError> {
    loop {
        match call.poll() {
            Ok(Async::Ready(v)) => return Ok(v),
            Ok(Async::NotReady) => {}
            Err(e) => return Err(e),
        }
    }
}

fn fresh_queue() -> tasque::TaskQueue {
    tasque::TaskQueueBuilder::new().finish()
}

#[test]
fn it_works() {
    let mut executor = fibers::InPlaceExecutor::new().unwrap();

    let mut cpu_cache = ThreadCache::empty();
    let mut cpu_slot = QueueSlot::empty();
    let future = DefaultCpuTaskQueue.async_call(&mut cpu_cache, &mut cpu_slot, || 1 + 1);
    assert_eq!(executor.run_future(CallFuture(future)).unwrap(), Ok(2));

    let mut io_cache = ThreadCache::empty();
    let mut io_slot = QueueSlot::empty();
    let future =
        DefaultIoTaskQueue.async_call(&mut io_cache, &mut io_slot, || -> () { panic!() });
    assert_eq!(
        executor.run_future(CallFuture(future)).unwrap(),
        Err(AsyncCallError)
    );
}

#[test]
fn success_delivery() {
    let queue = fresh_queue();
    let call = async_call(&queue, || 1 + 1);
    assert_eq!(poll_to_completion(call), Ok(2));
}

#[test]
fn failure_delivery() {
    let queue = fresh_queue();
    let call = async_call(&queue, || -> () { panic!() });
    assert_eq!(poll_to_completion(call), Err(AsyncCallError));
}

#[test]
fn resolution_is_terminal() {
    let queue = fresh_queue();
    let mut call = async_call(&queue, || 7u32);
    assert!(!call.is_resolved());
    loop {
        match call.poll() {
            Ok(Async::Ready(v)) => {
                assert_eq!(v, 7);
                break;
            }
            Ok(Async::NotReady) => assert!(!call.is_resolved()),
            Err(_) => panic!("worker aborted unexpectedly"),
        }
    }
    assert!(call.is_resolved());
    assert!(call.is_resolved());
}

#[test]
fn independent_results() {
    let queue = fresh_queue();
    let mut calls = Vec::new();
    for i in 0..100usize {
        calls.push(async_call(&queue, move || i));
    }
    let mut results = Vec::new();
    for call in calls {
        results.push(poll_to_completion(call).unwrap());
    }
    let mut sorted = results.clone();
    sorted.sort();
    let expected: Vec<usize> = (0..100).collect();
    assert_eq!(sorted, expected);
}

#[test]
fn dropped_future_still_runs_closure() {
    let queue = fresh_queue();
    let counter = Arc::new(AtomicUsize::new(0));
    let seen = Arc::clone(&counter);
    let call = async_call(&queue, move || {
        seen.fetch_add(1, Ordering::SeqCst);
    });
    drop(call);
    while counter.load(Ordering::SeqCst) == 0 {}
    assert_eq!(counter.load(Ordering::SeqCst), 1);
}

#[test]
fn translate_received_is_success() {
    assert_eq!(translate(RecvPoll::Received(5u8)), Ok(Async::Ready(5u8)));
}

#[test]
fn translate_disconnect_is_error() {
    assert_eq!(translate::<u8>(RecvPoll::Disconnected), Err(AsyncCallError));
}

#[test]
fn translate_pending_is_not_ready() {
    assert_eq!(translate::<u8>(RecvPoll::Pending), Ok(Async::NotReady));
}

#[test]
fn error_description_text() {
    assert_eq!(
        AsyncCallError.description(),
        "a worker thread executing an asynchronous function call aborted"
    );
}

#[test]
fn error_is_a_plain_marker() {
    let e = AsyncCallError;
    let copy = e;
    assert_eq!(e, copy);
    assert_eq!(format!("{:?}", e), "AsyncCallError");
}
