//! The handle: a local copy of the shared value, an optional override, and a
//! reference to the cell that all handles cloned from one another share.
//!
//! `set`, `update_cache` and `get_updated` wait for the lock of the cell.
//! The lock knows no poisoning: a call that waits returns once the lock is
//! free, and never fails. `try_update_cache`, `get_true` and `get` do not
//! wait; where the lock is taken they fall back on the local copy.

use crate::cell::{arc_clone, locked_read, locked_write, mutex_new, try_locked_read};
use crate::model::Local;
use parking_lot::Mutex;
use std::sync::Arc;
use vstd::prelude::*;

verus! {

/// Just `Arc<Mutex<T>>` with a local cache.
#[verifier::reject_recursive_types(T)]
pub struct Cache<T: Copy> {
    cached_value: T,
    pub(crate) override_value: Option<T>,
    raw_value: Arc<Mutex<T>>,
}

impl<T: Copy> View for Cache<T> {
    type V = Local<T>;

    /// What the handle keeps for itself; the cell is not part of it.
    closed spec fn view(&self) -> Local<T> {
        Local { cached_value: self.cached_value, override_value: self.override_value }
    }
}

impl<T: Copy> Clone for Cache<T> {
    /// A second handle on the same cell, with the same cached value and the
    /// same override.
    fn clone(&self) -> (twin: Self)
        ensures
            twin@ == self@,
            twin.cell() == self.cell(),
    {
        Cache {
            cached_value: self.cached_value,
            override_value: self.override_value,
            raw_value: arc_clone(&self.raw_value),
        }
    }
}

impl<T: Copy> Cache<T> {
    /// The shared cell that the handle refers to. Two handles share a cell
    /// where this is equal on them.
    pub closed spec fn cell(&self) -> Arc<Mutex<T>> {
        self.raw_value
    }

    /// Takes in a value that was read from or written to the shared cell.
    fn remember(&mut self, value: T)
        ensures
            final(self)@ == old(self)@.remember(value),
            final(self).cell() == old(self).cell(),
    {
        self.cached_value = value;
    }

    /// Takes in the outcome of a probe of the shared cell: the value that the
    /// cell held where the probe got the lock, `None` where it did not. Hands
    /// the outcome on.
    fn absorb(&mut self, probe: Option<T>) -> (fresh: Option<T>)
        ensures
            final(self)@ == old(self)@.absorb(probe),
            final(self).cell() == old(self).cell(),
            fresh == probe,
    {
        if let Some(new_value) = probe {
            self.remember(new_value);
            Some(self.cached_value)
        } else {
            None
        }
    }

    /// Make a new cache: a new cell around `value`, and its first handle.
    pub fn new(value: T) -> (handle: Self)
        ensures
            handle@ == Local::fresh(value),
    {
        Self { override_value: None, cached_value: value, raw_value: Arc::new(mutex_new(value)) }
    }

    /// Set the value. Blocks the thread until it can acquire the mutex.
    ///
    /// The other handles of the cell keep their cached values until their
    /// next read of the cell.
    pub fn set(&mut self, value: T)
        ensures
            final(self)@ == old(self)@.remember(value),
            final(self).cell() == old(self).cell(),
    {
        self.remember(value);
        locked_write(&self.raw_value, value);
    }

    /// Set the override of this handle, or clear it with `None`. Neither the
    /// shared cell nor another handle is touched.
    pub fn set_override(&mut self, value: Option<T>)
        ensures
            final(self)@ == old(self)@.with_override(value),
            final(self).cell() == old(self).cell(),
    {
        self.override_value = value;
    }

    /// Get the value.
    /// Priority: Override value -> Try update attempt -> Cached value
    ///
    /// The update is attempted whether or not there is an override.
    pub fn get(&mut self) -> (value: T)
        ensures
            value == final(self)@.shown(),
            final(self)@.override_value == old(self)@.override_value,
            final(self).cell() == old(self).cell(),
    {
        let live = self.get_true();
        self.override_value.unwrap_or(live)
    }

    /// Get the "true" value, ignoring override.
    /// Priority: Try update attempt -> Cached value
    pub fn get_true(&mut self) -> (value: T)
        ensures
            final(self)@ == old(self)@.remember(value),
            final(self).cell() == old(self).cell(),
    {
        let fresh = self.try_update_cache();
        fresh.unwrap_or(self.cached_value)
    }

    /// Updates the cache. Blocks the thread until it can acquire the mutex.
    pub fn update_cache(&mut self)
        ensures
            final(self)@.override_value == old(self)@.override_value,
            final(self).cell() == old(self).cell(),
    {
        let seen = locked_read(&self.raw_value);
        self.remember(seen);
    }

    /// Get the updated value. Blocks the thread until it can acquire the mutex.
    pub fn get_updated(&mut self) -> (value: T)
        ensures
            final(self)@ == old(self)@.remember(value),
            final(self).cell() == old(self).cell(),
    {
        self.update_cache();
        self.cached_value
    }

    /// Attempt to update the cache by trying to lock the mutex. Returns the
    /// updated value as an [`Option`] if it succeeds; where the mutex is
    /// taken, returns `None` and leaves the handle as it was.
    pub fn try_update_cache(&mut self) -> (fresh: Option<T>)
        ensures
            final(self)@ == old(self)@.absorb(fresh),
            final(self).cell() == old(self).cell(),
    {
        let probe = try_locked_read(&self.raw_value);
        self.absorb(probe)
    }
}

} // verus!
