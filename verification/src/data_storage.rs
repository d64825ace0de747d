//! Type-keyed data storage: a container holding at most one value per value
//! type, usable server-wide (shared) or per-connection. A lookup for a type
//! that was never inserted yields an absent result, never a fault.
//!
//! The container is keyed by `std::any::TypeId` and holds boxed `std::any::Any`
//! values behind a checked downcast; that type-erased machinery is outside
//! what the verifier can model, so the container itself is trusted and kept
//! as small as possible. Everything that consumes it is verified against its
//! plain-value interface.

use std::any::Any;
use std::any::TypeId;
use std::collections::HashMap;
use std::sync::Arc;
use vstd::prelude::*;

verus! {

/// A container holding at most one value per value type. Inserting a value of
/// a type already present replaces the prior value.
#[verifier::external_body]
pub struct DataStorage {
    storage: HashMap<TypeId, Box<dyn Any>>,
}

impl DataStorage {
    /// Relies on std's `HashMap::new`: a fresh container holds no value of
    /// any type.
    #[verifier::external_body]
    pub fn new() -> DataStorage {
        DataStorage { storage: HashMap::new() }
    }

    /// Relies on std's `HashMap::insert` keyed by `TypeId::of::<T>`: the value
    /// is stored under its type's identity, replacing any earlier value of
    /// the same type.
    #[verifier::external_body]
    pub fn add_data<T: Send + Sync + 'static>(&mut self, data: T) {
        self.storage.insert(TypeId::of::<T>(), Box::new(data));
    }

    /// Relies on std's `HashMap::get` and `Any::downcast_ref`: returns the
    /// value stored under `T`'s type identity, or `None` when no value of
    /// that type was ever inserted. The downcast is checked and cannot
    /// mistake one type's slot for another's.
    #[verifier::external_body]
    pub fn get_data<T: Send + Sync + 'static>(&self) -> Option<&T> {
        self.storage.get(&TypeId::of::<T>()).and_then(|boxed| boxed.downcast_ref::<T>())
    }

    /// Moves this storage behind a shared handle, after which it is
    /// read-only.
    pub fn into_shared(self) -> (r: SharedDataStorage)
        ensures
            r.spec_storage() == self,
    {
        SharedDataStorage { inner: Arc::new(self) }
    }
}

/// A cloneable read-only handle to a [`DataStorage`], shared between the
/// server, its connections and the native callback path.
pub struct SharedDataStorage {
    inner: Arc<DataStorage>,
}

impl SharedDataStorage {
    /// The storage this handle refers to.
    pub closed spec fn spec_storage(&self) -> DataStorage {
        *self.inner
    }

    /// A shared handle to a storage holding no value of any type.
    pub fn empty() -> SharedDataStorage {
        SharedDataStorage { inner: Arc::new(DataStorage::new()) }
    }

    /// Returns the value stored under `T`'s type identity, or `None` when no
    /// value of that type was ever inserted.
    pub fn get_data<T: Send + Sync + 'static>(&self) -> Option<&T> {
        self.inner.get_data::<T>()
    }
}

impl Clone for SharedDataStorage {
    /// Relies on std's `Arc::clone`: the clone refers to the same underlying
    /// storage.
    #[verifier::external_body]
    fn clone(&self) -> (r: SharedDataStorage)
        ensures
            r.spec_storage() == self.spec_storage(),
    {
        SharedDataStorage { inner: Arc::clone(&self.inner) }
    }
}

} // verus!
