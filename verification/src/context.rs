//! The communication context: explicit shared ownership of one topic
//! registry and its concurrency guard.
//!
//! The application constructs a context once and hands it (by shared
//! ownership, never by ambient global access) to every publisher and
//! subscriber constructor.  All mutation of the registry — insertion of new
//! endpoints and fan-out delivery attempts — happens under the context's
//! single lock, whose discipline guarantees that every registry value
//! stored behind it is well-formed.  Isolated contexts give independent
//! message buses within one process.

use vstd::prelude::*;
use vstd::rwlock::RwLock;
use vstd::rwlock::RwLockPredicate;
use crate::message::AuraMessage;
use crate::registry::Registry;
use std::sync::Arc;
use std::sync::mpsc::Sender;

verus! {

/// The lock discipline of the shared registry: every value stored behind
/// the guard is a well-formed registry (unique topic names).
pub struct RegistryPred {

}

impl RwLockPredicate<Registry> for RegistryPred {
    open spec fn inv(self, v: Registry) -> bool {
        v.wf()
    }
}

/// One communication bus: the shared topic registry behind its lock.
#[derive(Clone)]
pub struct Context {
    registry: Arc<RwLock<Registry, RegistryPred>>,
}

impl Context {
    /// A fresh context with an empty registry.
    pub fn new() -> (c: Context) {
        let reg = Registry::new();
        Context { registry: Arc::new(RwLock::new(reg, Ghost(RegistryPred {  }))) }
    }

    /// Inserts `tx` into the registry under `topic`, holding the lock for
    /// the duration of the insertion.
    ///
    /// Nothing can be promised here about the registry's contents: other
    /// holders of this context mutate it concurrently.  The per-snapshot
    /// contract lives on [`Registry::register`], which this call runs on
    /// the locked value.
    pub(crate) fn register_endpoint(&self, topic: &String, tx: Sender<AuraMessage>) {
        let (mut reg, handle) = self.registry.acquire_write();
        reg.register(topic, tx);
        handle.release_write(reg);
    }

    /// Attempts delivery of `m` to every endpoint currently registered for
    /// `topic`, reading the registry under the lock.  Returns how many
    /// attempts succeeded and how many found a disconnected endpoint.
    ///
    /// The per-snapshot contract — exactly one attempt per endpoint
    /// registered at the moment of the call — lives on
    /// [`Registry::fan_out`], which this call runs on the locked value.
    pub(crate) fn deliver(&self, topic: &String, m: &AuraMessage) -> (r: (usize, usize)) {
        let handle = self.registry.acquire_read();
        let counts = handle.borrow().fan_out(topic, m);
        handle.release_read();
        counts
    }
}

} // verus!
