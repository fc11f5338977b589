//! The worker-pool handle of the `tasque` crate, declared for the verifier,
//! together with the two operations on it that the library needs besides
//! task submission: building a labeled pool and cloning a handle.

use vstd::prelude::*;

verus! {

/// The `tasque::TaskQueue` worker-pool handle: a cloneable, thread-safe
/// capability referencing a shared pool of worker threads.
///
/// The type is opaque to the verifier; a handle's abstract value is taken to
/// be the pool it references, so two handles are equal in contracts exactly
/// when they route work to the same pool. `clone_queue` below is the one
/// trusted item that speaks of this equality.
#[verifier::external_type_specification]
#[verifier::external_body]
pub struct ExTaskQueue(tasque::TaskQueue);

/// Relies on `tasque::TaskQueueBuilder`: `new().metrics(..).finish()` spawns a
/// fresh worker pool and returns a handle to it. The label is attached to the
/// pool's metrics under the key `name` for observability only and has no
/// behavioral effect; label values are free-form. The key is pinned here
/// because `finish` validates label *names* (prometrics' `[a-zA-Z_][a-zA-Z0-9_]*`,
/// non-empty, not `__`-prefixed) and panics on an invalid one; `name` is valid.
#[verifier::external_body]
pub(crate) fn build_queue(label: &str) -> tasque::TaskQueue {
    let mut builder = tasque::TaskQueueBuilder::new();
    builder.metrics(|m| {
        m.label("name", label);
    });
    builder.finish()
}

/// Relies on `tasque::TaskQueue`'s derived `Clone`: the clone shares the same
/// underlying worker pool as `q` (it clones the pool's two channel senders
/// and the shared metrics `Arc`). Since a handle's abstract value is the pool
/// it references, the clone equals its source.
#[verifier::external_body]
pub(crate) fn clone_queue(q: &tasque::TaskQueue) -> (r: tasque::TaskQueue)
    ensures
        r == *q,
{
    q.clone()
}

} // verus!
