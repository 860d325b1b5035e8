//! Typed handles to resources.
use core::marker::PhantomData;
use vstd::prelude::*;

verus! {

/// A handle to a resource of type `T`: an index that carries the resource type.
pub struct ResourceHandle<T> {
    id: usize,
    _marker: PhantomData<T>,
}

/// Handles that a [`crate::pool::ResourcePool`] gives out.
pub type ResourceId<T> = ResourceHandle<T>;

impl<T> ResourceHandle<T> {
    /// The index this handle stands for.
    pub closed spec fn index(self) -> usize {
        self.id
    }

    pub fn from_index(id: usize) -> (handle: Self)
        ensures
            handle.index() == id,
    {
        ResourceHandle { id, _marker: PhantomData }
    }

    pub fn id(&self) -> (id: usize)
        ensures
            id == self.index(),
    {
        self.id
    }
}

impl<T> Clone for ResourceHandle<T> {
    fn clone(&self) -> (copy: Self)
        ensures
            copy.index() == self.index(),
    {
        ResourceHandle { id: self.id, _marker: PhantomData }
    }
}

impl<T> Copy for ResourceHandle<T> {

}

} // verus!
