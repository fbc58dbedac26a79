//! Values of the server state that background work reads through cheap,
//! read-only snapshots while the control thread keeps the owned copy.
use vstd::prelude::*;

use std::sync::Arc;

verus! {

/// A value owned by the control thread, from which snapshots are taken.
pub struct Owned<T>(Arc<T>);

/// A read-only snapshot of an [`Owned`] value.
pub struct Snapshot<T>(Arc<T>);

impl<T> Owned<T> {
    /// The value held.
    pub closed spec fn value(&self) -> T {
        *self.0
    }

    pub fn new(inner: Arc<T>) -> (r: Self)
        ensures
            r.value() == *inner,
    {
        Owned(inner)
    }

    /// A snapshot of the value as it is now.
    pub fn snapshot(&self) -> (r: Snapshot<T>)
        ensures
            r.value() == self.value(),
    {
        Snapshot(Arc::clone(&self.0))
    }

    /// The value held.
    pub fn get(&self) -> (r: &T)
        ensures
            *r == self.value(),
    {
        &self.0
    }

    /// Replaces the value; snapshots taken before keep the old one.
    pub fn set(&mut self, value: T)
        ensures
            final(self).value() == value,
    {
        self.0 = Arc::new(value);
    }
}

impl<T> Snapshot<T> {
    /// The value the snapshot shows.
    pub closed spec fn value(&self) -> T {
        *self.0
    }

    /// The value the snapshot shows.
    pub fn get(&self) -> (r: &T)
        ensures
            *r == self.value(),
    {
        &self.0
    }
}

} // verus!
