//! The bridging primitive: submitting a closure to a worker pool and
//! observing its result through a pollable one-shot future.
//!
//! `async_call` creates a one-shot completion channel, hands the producer
//! half together with the closure to the pool, and returns an [`AsyncCall`]
//! future wrapping the consumer half. The future resolves to the closure's
//! result, or to [`AsyncCallError`] if the producer half was dropped without
//! sending (the closure panicked, its worker died, or the pool shut down).

use vstd::prelude::*;

verus! {

/// What one non-blocking look at the consumer half of a completion channel
/// can observe: nothing yet, the single delivered value, or a producer half
/// that is gone without having sent.
#[derive(Debug, PartialEq, Eq)]
pub enum RecvPoll<T> {
    /// The producer half still exists and has not sent yet.
    Pending,
    /// The single value of the channel, now consumed.
    Received(T),
    /// The producer half was dropped without sending.
    Disconnected,
}

/// A non-blocking poll outcome: the result value, or not ready yet.
#[derive(Debug, PartialEq, Eq)]
pub enum Async<T> {
    /// The computation finished with this value.
    Ready(T),
    /// The computation has not finished yet; poll again later.
    NotReady,
}

/// The single error of this library: the worker executing an asynchronous
/// function call aborted before delivering a result. It carries no payload
/// and draws no distinction between a panicking closure, a dead worker
/// thread, and a pool that shut down before running the closure.
#[derive(Debug, Clone, Copy, PartialEq, Eq, Structural)]
pub struct AsyncCallError;

impl AsyncCallError {
    /// The fixed human-readable description of this error.
    pub fn description(&self) -> (r: &'static str)
        ensures
            r@ == "a worker thread executing an asynchronous function call aborted"@,
    {
        "a worker thread executing an asynchronous function call aborted"
    }
}

/// The values a closure `f` can return: exactly the `v` with
/// `call_ensures(f, (), v)`.
pub open spec fn returns_of<F, T>(f: F) -> spec_fn(T) -> bool where F: FnOnce() -> T {
    |v: T| call_ensures(f, (), v)
}

/// A future that represents an asynchronous function call: the consumer half
/// of a one-shot completion channel, created by [`async_call`].
///
/// Its ghost predicate `can_yield` records which values the channel can ever
/// deliver; the trusted `submit` — the only place one of these is built —
/// pins it to the submitted closure's possible results, so a successful
/// resolution is always a value of that closure.
#[verifier::reject_recursive_types(T)]
pub struct AsyncCall<T> {
    rx: fibers::sync::oneshot::Receiver<T>,
    done: bool,
    allowed: Ghost<spec_fn(T) -> bool>,
}

/// The producer half of fibers' one-shot channel, opaque to the verifier.
#[verifier::external_type_specification]
#[verifier::external_body]
#[verifier::reject_recursive_types(T)]
pub struct ExSender<T>(fibers::sync::oneshot::Sender<T>);

/// The consumer half of fibers' one-shot channel, opaque to the verifier.
#[verifier::external_type_specification]
#[verifier::external_body]
#[verifier::reject_recursive_types(T)]
pub struct ExReceiver<T>(fibers::sync::oneshot::Receiver<T>);

impl<T> AsyncCall<T> {
    /// Which values this future can ever resolve to successfully.
    pub closed spec fn can_yield(self) -> spec_fn(T) -> bool {
        self.allowed@
    }

    /// Whether this future has already reached a terminal state. A resolved
    /// future must not be polled again.
    pub closed spec fn resolved(self) -> bool {
        self.done
    }

    /// Whether this future has already reached a terminal state.
    pub fn is_resolved(&self) -> (r: bool)
        ensures
            r == self.resolved(),
    {
        self.done
    }
}

/// Relies on `fibers::sync::oneshot::Sender::send`: delivers `v` to the
/// paired consumer half if it still exists; if the consumer half has been
/// dropped, the send is a no-op (the returned error is deliberately ignored:
/// a computation must not fail merely because nobody is waiting for it).
#[verifier::external_body]
fn send_value<T>(tx: fibers::sync::oneshot::Sender<T>, v: T) {
    let _ = tx.send(v);
}

/// Runs the submitted closure and delivers its result into the completion
/// channel. This is the whole body of the task handed to the worker pool: if
/// `f` panics, the panic propagates, `tx` is dropped without sending, and the
/// paired future observes the disconnect as [`AsyncCallError`].
pub fn run_and_deliver<F, T>(f: F, tx: fibers::sync::oneshot::Sender<T>) where
    F: FnOnce() -> T + Send + 'static,
    T: Send + 'static,

    requires
        call_requires(f, ()),
{
    let v = f();
    send_value(tx, v);
}

/// Relies on `fibers::sync::oneshot::channel` and `tasque::TaskQueue::enqueue`:
/// creates a freshly paired producer and consumer half, submits
/// `run_and_deliver(f, tx)` for execution on one of the pool's worker
/// threads (or never, if the pool shuts down first; then `tx` is dropped
/// without sending), and wraps the consumer half as an unresolved future.
///
/// This is the only place an [`AsyncCall`] is built, so no verified code
/// ever writes its ghost model: `can_yield` is pinned here to `f`'s possible
/// results, which is true of the wrapped channel because the producer half
/// of the fresh pair goes only into the verified `run_and_deliver`, which
/// sends exactly the result of one call of `f`. The `can_yield` clause of
/// `poll_receiver` rests on this pairing.
#[verifier::external_body]
fn submit<F: FnOnce() -> T + Send + 'static, T: Send + 'static>(
    queue: &tasque::TaskQueue,
    f: F,
) -> (r: AsyncCall<T>)
    requires
        call_requires(f, ()),
    ensures
        !r.resolved(),
        r.can_yield() == returns_of(f),
{
    let (tx, rx) = fibers::sync::oneshot::channel();
    queue.enqueue(move || run_and_deliver(f, tx));
    AsyncCall { rx, done: false, allowed: Ghost(returns_of::<F, T>(f)) }
}

/// Executes `f` asynchronously on a worker thread of `queue` and returns a
/// future for its result.
///
/// This never blocks and raises no error of its own: all failure of the
/// background execution surfaces later, through the future resolving to
/// `Err(AsyncCallError)`. The returned future can only ever yield a value
/// that `f` itself can return.
pub fn async_call<F, T>(queue: &tasque::TaskQueue, f: F) -> (r: AsyncCall<T>) where
    F: FnOnce() -> T + Send + 'static,
    T: Send + 'static,

    requires
        call_requires(f, ()),
    ensures
        !r.resolved(),
        r.can_yield() == returns_of::<F, T>(f),
{
    submit(queue, f)
}

/// How a future's poll translates the channel state it observed: a delivered
/// value becomes success, a disconnect becomes the error, and an empty
/// channel stays not-ready.
pub open spec fn spec_translate<T>(s: RecvPoll<T>) -> Result<Async<T>, AsyncCallError> {
    match s {
        RecvPoll::Pending => Ok(Async::NotReady),
        RecvPoll::Received(v) => Ok(Async::Ready(v)),
        RecvPoll::Disconnected => Err(AsyncCallError),
    }
}

/// Translates an observed channel state into a poll result, exactly as
/// [`spec_translate`] says.
pub fn translate<T>(s: RecvPoll<T>) -> (r: Result<Async<T>, AsyncCallError>)
    ensures
        r == spec_translate(s),
{
    match s {
        RecvPoll::Pending => Ok(Async::NotReady),
        RecvPoll::Received(v) => Ok(Async::Ready(v)),
        RecvPoll::Disconnected => Err(AsyncCallError),
    }
}

/// Relies on fibers' `impl futures::Future for oneshot::Receiver`: one
/// non-blocking poll of the consumer half, reporting the delivered value,
/// emptiness, or a dropped producer half. A delivered value was sent on the
/// paired producer half, which only `run_and_deliver` ever holds; hence the
/// `can_yield` clause (see `submit`, the only place an [`AsyncCall`] is
/// built).
#[verifier::external_body]
fn poll_receiver<T>(call: &mut AsyncCall<T>) -> (r: RecvPoll<T>)
    ensures
        final(call).can_yield() == old(call).can_yield(),
        final(call).resolved() == old(call).resolved(),
        (r matches RecvPoll::Received(v) ==> old(call).can_yield()(v)),
{
    match futures::Future::poll(&mut call.rx) {
        Ok(futures::Async::Ready(v)) => RecvPoll::Received(v),
        Ok(futures::Async::NotReady) => RecvPoll::Pending,
        Err(_) => RecvPoll::Disconnected,
    }
}

impl<T> AsyncCall<T> {
    /// Polls this future without blocking.
    ///
    /// Returns `Ok(Async::Ready(v))` once the background closure delivered
    /// `v`, `Err(AsyncCallError)` once the worker aborted without delivering,
    /// and `Ok(Async::NotReady)` while neither has happened yet. A successful
    /// value always satisfies `can_yield`, so it is a value the submitted
    /// closure itself can return. After a terminal result the future is
    /// resolved and must not be polled again.
    pub fn poll(&mut self) -> (r: Result<Async<T>, AsyncCallError>)
        requires
            !old(self).resolved(),
        ensures
            final(self).can_yield() == old(self).can_yield(),
            (r matches Ok(a) ==> (a matches Async::Ready(v) ==> old(self).can_yield()(v))),
            final(self).resolved() == !(r matches Ok(a2) && a2 matches Async::NotReady),
    {
        let s = poll_receiver(self);
        let r = translate(s);
        match &r {
            Ok(Async::NotReady) => {}
            _ => {
                self.done = true;
            }
        }
        r
    }
}

/// Success delivery: a value that a future created for `f` can yield is a
/// value `f` itself can return. Together with the `ensures` of `async_call`
/// and `poll`, a poll result `Ok(Async::Ready(v))` gives
/// `call_ensures(f, (), v)`.
pub proof fn lemma_success_delivery<F, T>(f: F, v: T) where F: FnOnce() -> T
    requires
        returns_of::<F, T>(f)(v),
    ensures
        call_ensures(f, (), v),
{
}

/// Failure delivery: a producer half dropped without sending surfaces as
/// exactly `Err(AsyncCallError)`, never as success and never as pending.
pub proof fn lemma_failure_delivery<T>()
    ensures
        spec_translate::<T>(RecvPoll::Disconnected) == Err::<Async<T>, AsyncCallError>(AsyncCallError),
{
}

/// Independence: a value that the future of `f1` can yield but that `f2`
/// cannot return can never be yielded by the future of `f2` — no value
/// appears on the wrong future.
pub proof fn lemma_independence<F1, F2, T>(f1: F1, f2: F2, v: T) where
    F1: FnOnce() -> T,
    F2: FnOnce() -> T,

    requires
        returns_of::<F1, T>(f1)(v),
        forall|w: T| call_ensures(f2, (), w) ==> w != v,
    ensures
        !returns_of::<F2, T>(f2)(v),
{
}

} // verus!
