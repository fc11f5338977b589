//! The default-queue registry: a lazily-initialized, at-most-once-constructed
//! slot holding a shared worker pool, a per-thread cache of a handle to it,
//! and the two tagged default queues built on both.
//!
//! A process-wide deployment keeps one [`QueueSlot`] per tag behind a
//! mutual-exclusion guard and one [`ThreadCache`] per tag per thread; the
//! state machines themselves — slot: uninitialized to initialized, once,
//! terminally; cache: unset to set, bypassing the slot afterwards — are
//! verified here over explicit state passed in by the caller.

use vstd::prelude::*;

verus! {

use crate::bridge::async_call;
use crate::bridge::returns_of;
use crate::bridge::AsyncCall;
use crate::pool::build_queue;
use crate::pool::clone_queue;

/// A lazily-initialized slot for one shared worker pool.
///
/// The slot starts uninitialized; the first `get_or_init` constructs a pool
/// labeled with the given tag and stores a handle, and every later call
/// leaves the slot exactly as it is. Initialization is terminal: the slot is
/// never torn down.
pub struct QueueSlot {
    queue: Option<tasque::TaskQueue>,
    name: Ghost<Seq<char>>,
}

impl QueueSlot {
    /// Whether a pool has been constructed and stored.
    pub closed spec fn initialized(self) -> bool {
        self.queue is Some
    }

    /// The tag the stored pool was labeled with; meaningful once initialized.
    pub closed spec fn tag(self) -> Seq<char> {
        self.name@
    }

    /// The pool this slot stores a handle to; meaningful once initialized.
    pub closed spec fn pool(self) -> tasque::TaskQueue {
        self.queue->Some_0
    }

    /// A fresh, uninitialized slot.
    pub fn empty() -> (s: Self)
        ensures
            !s.initialized(),
    {
        QueueSlot { queue: None, name: Ghost(Seq::empty()) }
    }

    /// Whether a pool has been constructed and stored.
    pub fn is_initialized(&self) -> (r: bool)
        ensures
            r == self.initialized(),
    {
        self.queue.is_some()
    }

    /// Returns a handle to the slot's pool, constructing the pool labeled
    /// `name` first if the slot is still uninitialized.
    ///
    /// Construction happens at most once: on an already-initialized slot this
    /// changes nothing, whatever `name` is passed, and the original tag is
    /// kept. The returned handle is always the slot's own pool.
    pub fn get_or_init(&mut self, name: &str) -> (q: tasque::TaskQueue)
        ensures
            final(self).initialized(),
            q == final(self).pool(),
            final(self).tag() == (if old(self).initialized() {
                old(self).tag()
            } else {
                name@
            }),
            old(self).initialized() ==> *final(self) == *old(self),
    {
        match &self.queue {
            Some(q) => clone_queue(q),
            None => {
                let q = build_queue(name);
                self.queue = Some(clone_queue(&q));
                self.name = Ghost(name@);
                q
            }
        }
    }
}

/// A per-thread cache of a handle to a shared pool.
///
/// The cache starts unset; `fill` reads the shared slot once (constructing
/// its pool if needed) and retains a private handle. Once set, the cache
/// serves every later access without touching the slot at all.
pub struct ThreadCache {
    handle: Option<tasque::TaskQueue>,
    name: Ghost<Seq<char>>,
}

impl ThreadCache {
    /// Whether this cache already holds a handle.
    pub closed spec fn is_set(self) -> bool {
        self.handle is Some
    }

    /// The tag of the slot the cached handle was taken from.
    pub closed spec fn tag(self) -> Seq<char> {
        self.name@
    }

    /// The cached handle; meaningful once set.
    pub closed spec fn handle(self) -> tasque::TaskQueue {
        self.handle->Some_0
    }

    /// A fresh, unset cache.
    pub fn empty() -> (c: Self)
        ensures
            !c.is_set(),
    {
        ThreadCache { handle: None, name: Ghost(Seq::empty()) }
    }

    /// Whether this cache already holds a handle.
    pub fn is_filled(&self) -> (r: bool)
        ensures
            r == self.is_set(),
    {
        self.handle.is_some()
    }

    /// Populates this cache from `slot`, constructing the slot's pool labeled
    /// `name` first if the slot is still uninitialized. This is the cache's
    /// one-time read of the shared state.
    pub fn fill(&mut self, slot: &mut QueueSlot, name: &str)
        requires
            !old(self).is_set(),
        ensures
            final(self).is_set(),
            final(self).tag() == final(slot).tag(),
            final(self).handle() == final(slot).pool(),
            final(slot).initialized(),
            final(slot).tag() == (if old(slot).initialized() {
                old(slot).tag()
            } else {
                name@
            }),
            old(slot).initialized() ==> *final(slot) == *old(slot),
    {
        let q = slot.get_or_init(name);
        let ghost t = slot.tag();
        self.handle = Some(q);
        self.name = Ghost(t);
    }

    /// Returns a fresh clone of the cached handle, without touching any
    /// shared state.
    pub fn cached_clone(&self) -> (q: tasque::TaskQueue)
        requires
            self.is_set(),
        ensures
            q == self.handle(),
    {
        match &self.handle {
            Some(q) => clone_queue(q),
            None => vstd::pervasive::unreached(),
        }
    }

    /// Passes a borrowed reference to the cached handle — that handle, not
    /// some other — to `f` and returns `f`'s result, avoiding a clone.
    pub fn with_cached<F, R>(&self, f: F) -> (r: R) where F: FnOnce(&tasque::TaskQueue) -> R,
        requires
            self.is_set(),
            forall|q: &tasque::TaskQueue| call_requires(f, (q,)),
        ensures
            exists|q: &tasque::TaskQueue| *q == self.handle() && call_ensures(f, (q,), r),
    {
        match &self.handle {
            Some(q) => f(q),
            None => vstd::pervasive::unreached(),
        }
    }
}

/// A cache and slot belonging to the default queue tagged `label`: whichever
/// of the two already holds state, that state carries this tag, and a set
/// cache holds a handle to the very pool the slot stores. Every
/// default-queue method requires this of the state handed in and leaves it
/// holding again, so one tag's slot is never filled under another's label
/// and a cached handle never belongs to some other slot's pool.
pub open spec fn tagged_state(cache: ThreadCache, slot: QueueSlot, label: Seq<char>) -> bool {
    &&& cache.is_set() ==> {
        &&& cache.tag() == label
        &&& slot.initialized()
        &&& cache.handle() == slot.pool()
    }
    &&& slot.initialized() ==> slot.tag() == label
}

/// The cache and slot state every default-queue access leaves behind: the
/// cache ends up set; a set cache serves the access alone, with neither the
/// cache nor the shared slot touched; an unset cache is filled with the
/// slot's own pool, initializing the slot with the tag `label` if and only
/// if no earlier access did, and never re-tagging an initialized slot.
pub open spec fn default_access(
    cache_pre: ThreadCache,
    cache_post: ThreadCache,
    slot_pre: QueueSlot,
    slot_post: QueueSlot,
    label: Seq<char>,
) -> bool {
    &&& cache_post.is_set()
    &&& cache_pre.is_set() ==> cache_post == cache_pre && slot_post == slot_pre
    &&& !cache_pre.is_set() ==> {
        &&& cache_post.tag() == slot_post.tag()
        &&& cache_post.handle() == slot_post.pool()
        &&& slot_post.initialized()
        &&& slot_post.tag() == (if slot_pre.initialized() {
            slot_pre.tag()
        } else {
            label
        })
        &&& slot_pre.initialized() ==> slot_post == slot_pre
    }
}

/// Makes sure `cache` is set, filling it from `slot` (and initializing the
/// slot's pool labeled `label`) only on the thread's first access.
fn ensure_cached(cache: &mut ThreadCache, slot: &mut QueueSlot, label: &str)
    ensures
        default_access(*old(cache), *final(cache), *old(slot), *final(slot), label@),
{
    if !cache.is_filled() {
        cache.fill(slot, label);
    }
}

/// The default queue for executing I/O intensive tasks, tagged
/// `"fibers_default_io"`.
///
/// A zero-sized handle: the slot holding the shared pool and this thread's
/// cache of it are passed in explicitly, so a deployment can keep them
/// process-wide while tests construct their own.
#[derive(Debug, Clone, Copy)]
pub struct DefaultIoTaskQueue;

/// The default queue for executing CPU intensive tasks, tagged
/// `"fibers_default_cpu"`.
///
/// A zero-sized handle: the slot holding the shared pool and this thread's
/// cache of it are passed in explicitly, so a deployment can keep them
/// process-wide while tests construct their own.
#[derive(Debug, Clone, Copy)]
pub struct DefaultCpuTaskQueue;

impl DefaultIoTaskQueue {
    /// The tag of the I/O-oriented default pool.
    pub open spec fn spec_label() -> Seq<char> {
        "fibers_default_io"@
    }

    /// The tag of the I/O-oriented default pool.
    pub fn label(&self) -> (r: &'static str)
        ensures
            r@ == Self::spec_label(),
    {
        "fibers_default_io"
    }

    /// Returns a fresh clone of this thread's cached handle to the
    /// I/O-oriented default pool, initializing the slot and the cache on
    /// first access.
    pub fn get(&self, cache: &mut ThreadCache, slot: &mut QueueSlot) -> (q: tasque::TaskQueue)
        requires
            tagged_state(*old(cache), *old(slot), Self::spec_label()),
        ensures
            default_access(*old(cache), *final(cache), *old(slot), *final(slot), Self::spec_label()),
            tagged_state(*final(cache), *final(slot), Self::spec_label()),
            q == final(cache).handle(),
            q == final(slot).pool(),
    {
        ensure_cached(cache, slot, self.label());
        cache.cached_clone()
    }

    /// Passes a borrowed reference to the I/O-oriented default pool's handle
    /// to `f`, initializing the slot and this thread's cache on first access.
    pub fn with<F, R>(&self, cache: &mut ThreadCache, slot: &mut QueueSlot, f: F) -> (r: R) where
        F: FnOnce(&tasque::TaskQueue) -> R,

        requires
            tagged_state(*old(cache), *old(slot), Self::spec_label()),
            forall|q: &tasque::TaskQueue| call_requires(f, (q,)),
        ensures
            default_access(*old(cache), *final(cache), *old(slot), *final(slot), Self::spec_label()),
            tagged_state(*final(cache), *final(slot), Self::spec_label()),
            exists|q: &tasque::TaskQueue|
                *q == final(cache).handle() && call_ensures(f, (q,), r),
    {
        ensure_cached(cache, slot, self.label());
        cache.with_cached(f)
    }

    /// Executes `f` asynchronously on the I/O-oriented default pool and
    /// returns a future for its result, initializing the slot and this
    /// thread's cache on first access.
    pub fn async_call<F, T>(&self, cache: &mut ThreadCache, slot: &mut QueueSlot, f: F) -> (r:
        AsyncCall<T>) where F: FnOnce() -> T + Send + 'static, T: Send + 'static,
        requires
            tagged_state(*old(cache), *old(slot), Self::spec_label()),
            call_requires(f, ()),
        ensures
            default_access(*old(cache), *final(cache), *old(slot), *final(slot), Self::spec_label()),
            tagged_state(*final(cache), *final(slot), Self::spec_label()),
            !r.resolved(),
            r.can_yield() == returns_of::<F, T>(f),
    {
        ensure_cached(cache, slot, self.label());
        let q = cache.cached_clone();
        async_call(&q, f)
    }
}

impl DefaultCpuTaskQueue {
    /// The tag of the CPU-oriented default pool.
    pub open spec fn spec_label() -> Seq<char> {
        "fibers_default_cpu"@
    }

    /// The tag of the CPU-oriented default pool.
    pub fn label(&self) -> (r: &'static str)
        ensures
            r@ == Self::spec_label(),
    {
        "fibers_default_cpu"
    }

    /// Returns a fresh clone of this thread's cached handle to the
    /// CPU-oriented default pool, initializing the slot and the cache on
    /// first access.
    pub fn get(&self, cache: &mut ThreadCache, slot: &mut QueueSlot) -> (q: tasque::TaskQueue)
        requires
            tagged_state(*old(cache), *old(slot), Self::spec_label()),
        ensures
            default_access(*old(cache), *final(cache), *old(slot), *final(slot), Self::spec_label()),
            tagged_state(*final(cache), *final(slot), Self::spec_label()),
            q == final(cache).handle(),
            q == final(slot).pool(),
    {
        ensure_cached(cache, slot, self.label());
        cache.cached_clone()
    }

    /// Passes a borrowed reference to the CPU-oriented default pool's handle
    /// to `f`, initializing the slot and this thread's cache on first access.
    pub fn with<F, R>(&self, cache: &mut ThreadCache, slot: &mut QueueSlot, f: F) -> (r: R) where
        F: FnOnce(&tasque::TaskQueue) -> R,

        requires
            tagged_state(*old(cache), *old(slot), Self::spec_label()),
            forall|q: &tasque::TaskQueue| call_requires(f, (q,)),
        ensures
            default_access(*old(cache), *final(cache), *old(slot), *final(slot), Self::spec_label()),
            tagged_state(*final(cache), *final(slot), Self::spec_label()),
            exists|q: &tasque::TaskQueue|
                *q == final(cache).handle() && call_ensures(f, (q,), r),
    {
        ensure_cached(cache, slot, self.label());
        cache.with_cached(f)
    }

    /// Executes `f` asynchronously on the CPU-oriented default pool and
    /// returns a future for its result, initializing the slot and this
    /// thread's cache on first access.
    pub fn async_call<F, T>(&self, cache: &mut ThreadCache, slot: &mut QueueSlot, f: F) -> (r:
        AsyncCall<T>) where F: FnOnce() -> T + Send + 'static, T: Send + 'static,
        requires
            tagged_state(*old(cache), *old(slot), Self::spec_label()),
            call_requires(f, ()),
        ensures
            default_access(*old(cache), *final(cache), *old(slot), *final(slot), Self::spec_label()),
            tagged_state(*final(cache), *final(slot), Self::spec_label()),
            !r.resolved(),
            r.can_yield() == returns_of::<F, T>(f),
    {
        ensure_cached(cache, slot, self.label());
        let q = cache.cached_clone();
        async_call(&q, f)
    }
}

/// Construction happens at most once and a slot's tag is stable: whatever
/// label a later default-queue access passes, an already-initialized slot
/// keeps its contents and its tag, and an access through a set cache leaves
/// the slot untouched entirely.
pub proof fn lemma_singleton_stability(
    cache_pre: ThreadCache,
    cache_post: ThreadCache,
    slot_pre: QueueSlot,
    slot_post: QueueSlot,
    label: Seq<char>,
)
    requires
        slot_pre.initialized(),
        default_access(cache_pre, cache_post, slot_pre, slot_post, label),
    ensures
        slot_post == slot_pre,
        slot_post.tag() == slot_pre.tag(),
{
}

/// Singleton identity: two threads' first default-queue accesses through one
/// shared slot, one after the other, leave both caches holding a handle to
/// the one pool the slot stores, so every handle either thread hands out
/// afterwards routes work to that same pool.
pub proof fn lemma_singleton_identity(
    cache_a_pre: ThreadCache,
    cache_a_post: ThreadCache,
    cache_b_pre: ThreadCache,
    cache_b_post: ThreadCache,
    slot_pre: QueueSlot,
    slot_mid: QueueSlot,
    slot_post: QueueSlot,
    label: Seq<char>,
)
    requires
        !cache_a_pre.is_set(),
        !cache_b_pre.is_set(),
        default_access(cache_a_pre, cache_a_post, slot_pre, slot_mid, label),
        default_access(cache_b_pre, cache_b_post, slot_mid, slot_post, label),
    ensures
        cache_a_post.handle() == slot_post.pool(),
        cache_b_post.handle() == slot_post.pool(),
        cache_a_post.handle() == cache_b_post.handle(),
{
}

} // verus!
