//! A small bridge between a `tasque` worker pool and a cooperative,
//! non-blocking consumer: submit a closure to the pool and observe its
//! result through a pollable one-shot future.

use vstd::prelude::*;

mod bridge;
mod pool;
mod registry;

verus! {

pub use crate::bridge::async_call;
pub use crate::bridge::returns_of;
pub use crate::bridge::spec_translate;
pub use crate::bridge::translate;
pub use crate::bridge::Async;
pub use crate::bridge::AsyncCall;
pub use crate::bridge::AsyncCallError;
pub use crate::bridge::RecvPoll;
pub use crate::bridge::lemma_failure_delivery;
pub use crate::bridge::lemma_independence;
pub use crate::bridge::lemma_success_delivery;
pub use crate::registry::default_access;
pub use crate::registry::lemma_singleton_identity;
pub use crate::registry::lemma_singleton_stability;
pub use crate::registry::tagged_state;
pub use crate::registry::DefaultCpuTaskQueue;
pub use crate::registry::DefaultIoTaskQueue;
pub use crate::registry::QueueSlot;
pub use crate::registry::ThreadCache;

} // verus!
