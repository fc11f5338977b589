use fibers_tasque::async_call;
use fibers_tasque::Async;
use fibers_tasque::AsyncCall;
use fibers_tasque::AsyncCallError;
use fibers_tasque::DefaultCpuTaskQueue;
use fibers_tasque::DefaultIoTaskQueue;
use fibers_tasque::QueueSlot;
use fibers_tasque::ThreadCache;
use std::sync::Arc;
use std::sync::Mutex;

fn poll_to_completion<T>(mut call: AsyncCall<T>) -> Result<T, AsyncCallError> {
    loop {
        match call.poll() {
            Ok(Async::Ready(v)) => return Ok(v),
            Ok(Async::NotReady) => {}
            Err(e) => return Err(e),
        }
    }
}

#[test]
fn slot_starts_uninitialized() {
    let slot = QueueSlot::empty();
    assert!(!slot.is_initialized());
}

#[test]
fn slot_initializes_once_and_stays_usable() {
    let mut slot = QueueSlot::empty();
    let q1 = slot.get_or_init("first");
    assert!(slot.is_initialized());
    let q2 = slot.get_or_init("second");
    assert!(slot.is_initialized());
    assert_eq!(poll_to_completion(async_call(&q1, || 10)), Ok(10));
    assert_eq!(poll_to_completion(async_call(&q2, || 20)), Ok(20));
}

#[test]
fn cache_fills_once_and_serves_clones() {
    let mut slot = QueueSlot::empty();
    let mut cache = ThreadCache::empty();
    assert!(!cache.is_filled());
    cache.fill(&mut slot, "cached");
    assert!(cache.is_filled());
    assert!(slot.is_initialized());
    let q = cache.cached_clone();
    assert_eq!(poll_to_completion(async_call(&q, || 3)), Ok(3));
}

#[test]
fn with_cached_passes_the_handle() {
    let mut slot = QueueSlot::empty();
    let mut cache = ThreadCache::empty();
    cache.fill(&mut slot, "cached");
    let r = cache.with_cached(|q| poll_to_completion(async_call(q, || 5)));
    assert_eq!(r, Ok(5));
}

#[test]
fn default_labels() {
    assert_eq!(DefaultIoTaskQueue.label(), "fibers_default_io");
    assert_eq!(DefaultCpuTaskQueue.label(), "fibers_default_cpu");
}

#[test]
fn default_get_initializes_and_returns_handle() {
    let mut slot = QueueSlot::empty();
    let mut cache = ThreadCache::empty();
    let q = DefaultCpuTaskQueue.get(&mut cache, &mut slot);
    assert!(cache.is_filled());
    assert!(slot.is_initialized());
    assert_eq!(poll_to_completion(async_call(&q, || 1 + 1)), Ok(2));
    let q2 = DefaultCpuTaskQueue.get(&mut cache, &mut slot);
    assert_eq!(poll_to_completion(async_call(&q2, || 4)), Ok(4));
}

#[test]
fn default_with_avoids_a_clone() {
    let mut slot = QueueSlot::empty();
    let mut cache = ThreadCache::empty();
    let r = DefaultIoTaskQueue.with(&mut cache, &mut slot, |_q| 7);
    assert_eq!(r, 7);
    assert!(cache.is_filled());
}

#[test]
fn default_async_call_delivers() {
    let mut slot = QueueSlot::empty();
    let mut cache = ThreadCache::empty();
    let call = DefaultIoTaskQueue.async_call(&mut cache, &mut slot, || 41 + 1);
    assert_eq!(poll_to_completion(call), Ok(42));
}

#[test]
fn shared_slot_from_two_handles() {
    let slot = Arc::new(Mutex::new(QueueSlot::empty()));
    let mut cache_a = ThreadCache::empty();
    let mut cache_b = ThreadCache::empty();
    {
        let mut guard = slot.lock().unwrap();
        cache_a.fill(&mut guard, "shared");
    }
    {
        let mut guard = slot.lock().unwrap();
        assert!(guard.is_initialized());
        cache_b.fill(&mut guard, "other");
    }
    let qa = cache_a.cached_clone();
    let qb = cache_b.cached_clone();
    assert_eq!(poll_to_completion(async_call(&qa, || 1)), Ok(1));
    assert_eq!(poll_to_completion(async_call(&qb, || 2)), Ok(2));
}
