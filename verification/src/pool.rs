//! A pool of resources addressed by typed handles.
use crate::handle::{ResourceHandle, ResourceId};
use vstd::prelude::*;

verus! {

/// Resources of one type, each under the handle it got when it was inserted. A slot is
/// never handed out twice, so a handle whose resource was removed stays dead.
pub struct ResourcePool<T> {
    slots: Vec<Option<T>>,
}

/// The values held in a sequence of slots, in order.
pub open spec fn live<T>(slots: Seq<Option<T>>) -> Seq<T>
    decreases slots.len(),
{
    if slots.len() == 0 {
        Seq::empty()
    } else {
        live(slots.drop_last()) + match slots.last() {
            Some(v) => seq![v],
            None => Seq::empty(),
        }
    }
}

proof fn lemma_live_complete<T>(slots: Seq<Option<T>>, i: int)
    requires
        0 <= i < slots.len(),
        slots[i] is Some,
    ensures
        live(slots).contains(slots[i]->Some_0),
    decreases slots.len(),
{
    let init = slots.drop_last();
    if i < slots.len() - 1 {
        lemma_live_complete(init, i);
        let k = choose|k: int| 0 <= k < live(init).len() && live(init)[k] == init[i]->Some_0;
        assert(live(slots)[k] == live(init)[k]);
    } else {
        assert(live(slots)[live(init).len() as int] == slots[i]->Some_0);
    }
}

impl<T> ResourcePool<T> {
    /// The live resources by handle index.
    pub closed spec fn view(self) -> Map<usize, T> {
        Map::new(
            |i: usize| i < self.slots@.len() && self.slots@[i as int] is Some,
            |i: usize| self.slots@[i as int]->Some_0,
        )
    }

    /// The index the next inserted resource gets; every handle given out so far is below it.
    pub closed spec fn next_index(self) -> nat {
        self.slots@.len()
    }

    /// The live resources in handle order.
    pub closed spec fn in_order(self) -> Seq<T> {
        live(self.slots@)
    }

    /// Everything live is listed by `in_order`.
    pub proof fn lemma_in_order(self)
        ensures
            forall|i: usize| #[trigger] self.view().contains_key(i) ==> self.in_order().contains(self.view()[i]),
    {
        assert forall|i: usize| #[trigger] self.view().contains_key(i) implies self.in_order().contains(self.view()[i]) by {
            lemma_live_complete(self.slots@, i as int);
        }
    }

    /// Every live handle is below the next index, and `insert` hands out the next index
    /// and moves it on, so no handle is given out twice: a handle whose resource was
    /// removed never names a new resource.
    pub proof fn lemma_live_below_next(self)
        ensures
            forall|i: usize| #[trigger] self.view().contains_key(i) ==> i < self.next_index(),
    {
    }

    pub fn new() -> (pool: Self)
        ensures
            pool.view() == Map::<usize, T>::empty(),
            pool.next_index() == 0,
    {
        let pool = ResourcePool { slots: Vec::new() };
        proof {
            assert(pool.view() =~= Map::<usize, T>::empty());
        }
        pool
    }

    /// Stores a resource under a fresh handle.
    pub fn insert(&mut self, res: T) -> (id: ResourceId<T>)
        requires
            old(self).next_index() < usize::MAX,
        ensures
            id.index() == old(self).next_index(),
            !old(self).view().contains_key(id.index()),
            final(self).view() == old(self).view().insert(id.index(), res),
            final(self).next_index() == old(self).next_index() + 1,
    {
        let id = self.slots.len();
        let ghost before = self.view();
        self.slots.push(Some(res));
        proof {
            assert(self.view() =~= before.insert(id, res));
        }
        ResourceHandle::from_index(id)
    }

    pub fn get(&self, id: ResourceId<T>) -> (res: Option<&T>)
        ensures
            self.view().contains_key(id.index()) ==> res == Some(&self.view()[id.index()]),
            !self.view().contains_key(id.index()) ==> res.is_none(),
    {
        let i = id.id();
        if i < self.slots.len() {
            match &self.slots[i] {
                Some(res) => Some(res),
                None => None,
            }
        } else {
            None
        }
    }

    pub fn get_mut(&mut self, id: ResourceId<T>) -> (res: Option<&mut T>)
        ensures
            old(self).view().contains_key(id.index()) ==> res is Some && *res->Some_0 == old(self).view()[id.index()]
                && final(self).view() == old(self).view().insert(id.index(), *final(res->Some_0)),
            !old(self).view().contains_key(id.index()) ==> res is None && final(self).view() == old(self).view(),
            final(self).next_index() == old(self).next_index(),
    {
        let i = id.id();
        if i < self.slots.len() {
            self.slots[i].as_mut()
        } else {
            None
        }
    }

    pub fn contains(&self, id: ResourceId<T>) -> (present: bool)
        ensures
            present == self.view().contains_key(id.index()),
    {
        let i = id.id();
        i < self.slots.len() && self.slots[i].is_some()
    }

    /// Takes the resource out of the pool; its handle stays dead.
    pub fn remove(&mut self, id: ResourceId<T>) -> (res: Option<T>)
        ensures
            old(self).view().contains_key(id.index()) ==> res == Some(old(self).view()[id.index()]),
            !old(self).view().contains_key(id.index()) ==> res.is_none(),
            final(self).view() == old(self).view().remove(id.index()),
            final(self).next_index() == old(self).next_index(),
    {
        let i = id.id();
        if i < self.slots.len() {
            let ghost before = self.view();
            let taken = self.slots[i].take();
            proof {
                assert(self.view() =~= before.remove(i));
            }
            taken
        } else {
            proof {
                assert(self.view() =~= self.view().remove(i));
            }
            None
        }
    }

    /// Puts `new` under a live handle and hands back what it held; a dead handle stays
    /// dead and gets nothing.
    pub fn replace(&mut self, id: ResourceId<T>, new: T) -> (res: Option<T>)
        ensures
            old(self).view().contains_key(id.index()) ==> res == Some(old(self).view()[id.index()])
                && final(self).view() == old(self).view().insert(id.index(), new),
            !old(self).view().contains_key(id.index()) ==> res.is_none() && final(self).view()
                == old(self).view(),
            final(self).next_index() == old(self).next_index(),
    {
        let i = id.id();
        if i < self.slots.len() && self.slots[i].is_some() {
            let ghost before = self.view();
            let taken = self.slots[i].take();
            self.slots[i] = Some(new);
            proof {
                assert(self.view() =~= before.insert(i, new));
            }
            taken
        } else {
            None
        }
    }

    /// Takes every resource out, in handle order.
    pub fn drain(&mut self) -> (all: Vec<T>)
        ensures
            final(self).view() == Map::<usize, T>::empty(),
            final(self).next_index() == old(self).next_index(),
            all@ == old(self).in_order(),
    {
        let ghost start = self.slots@;
        let mut all: Vec<T> = Vec::new();
        let mut i: usize = 0;
        while i < self.slots.len()
            invariant
                self.slots@.len() == start.len(),
                i <= start.len(),
                all@ == live(start.take(i as int)),
                forall|j: int| 0 <= j < i ==> self.slots@[j] is None,
                forall|j: int| i <= j < start.len() ==> self.slots@[j] == start[j],
            decreases start.len() - i,
        {
            let taken = self.slots[i].take();
            assert(start.take(i + 1).drop_last() =~= start.take(i as int));
            assert(taken == start[i as int]);
            if let Some(res) = taken {
                all.push(res);
            }
            i += 1;
        }
        proof {
            assert(start.take(start.len() as int) =~= start);
            assert(self.view() =~= Map::<usize, T>::empty());
        }
        all
    }
}

} // verus!
