//! A shareable handle to a keyed state store.
//!
//! A [`SharedState`] guards one [`StateManager`] behind a reference-counted
//! reader/writer lock: cloning the handle shares the store, it does not copy
//! it. The guard is held only for the duration of a single store operation.
//!
//! The store logic itself is verified on [`StateManager`], and the lock is
//! the verified reader/writer lock of the standard proof library. What no
//! contract here can promise is which store contents an operation observes:
//! any clone of the handle may change the store between two operations, so
//! the operations state nothing about the values they see, and properties
//! that span several operations on a shared handle hold only of runs in
//! which no other holder intervenes.

use vstd::prelude::*;
use vstd::rwlock::{RwLock, RwLockPredicate};

use crate::state_manager::StateManager;

verus! {

/// The lock predicate for a shared store: any store value may be held. The
/// store's own well-formedness is its type invariant and needs no help from
/// the lock.
pub struct AnyStore;

impl<V: DeepView> RwLockPredicate<StateManager<V>> for AnyStore {
    open spec fn inv(self, v: StateManager<V>) -> bool {
        true
    }
}

/// A shareable, lock-guarded handle to one [`StateManager`].
#[verifier::reject_recursive_types(V)]
pub struct SharedState<V: DeepView> {
    inner: std::sync::Arc<RwLock<StateManager<V>, AnyStore>>,
}

impl<V: DeepView> SharedState<V> {
    /// Creates a handle to a fresh, empty store.
    pub fn new() -> (r: Self) {
        SharedState {
            inner: std::sync::Arc::new(RwLock::new(StateManager::new(), Ghost(AnyStore))),
        }
    }

    /// Stores `value` at `key` in the shared store, replacing any value
    /// already stored there, under the write guard.
    pub fn insert(&self, key: String, value: V) {
        let (mut store, handle) = self.inner.acquire_write();
        store.insert(key, value);
        handle.release_write(store);
    }

    /// Returns a copy of the value stored at `key` in the shared store, if
    /// any, under the read guard. Which value is observed depends on what
    /// other holders of the handle have done.
    pub fn get(&self, key: &String) -> (r: Option<V>) where V: Clone {
        let handle = self.inner.acquire_read();
        let r = match handle.borrow().get(key) {
            Some(v) => Some(v.clone()),
            None => None,
        };
        handle.release_read();
        r
    }
}

impl<T: DeepView> SharedState<Vec<T>> {
    /// Appends `value` to the list stored at `key` in the shared store,
    /// creating the list if the key is absent, under the write guard.
    pub fn push(&self, key: String, value: T) {
        let (mut store, handle) = self.inner.acquire_write();
        store.push(key, value);
        handle.release_write(store);
    }
}

impl<V: DeepView> Clone for SharedState<V> {
    /// Returns a handle sharing the same store.
    fn clone(&self) -> Self {
        SharedState { inner: std::sync::Arc::clone(&self.inner) }
    }
}

} // verus!
