//! A generational arena: values live in numbered slots, and a handle names a
//! value by its slot and by the generation the slot had when the value went in.

use core::marker::PhantomData;
use vstd::prelude::*;
use crate::error::SlotError;

verus! {

/// Names one value of a `ResourcePool<T>`. It owns nothing: the pool does.
#[derive(Debug, PartialEq, Eq)]
pub struct Handle<T> {
    pub index: u32,
    pub generation: u32,
    pub marker: PhantomData<T>,
}

impl<T> Handle<T> {
    pub fn new(index: u32, generation: u32) -> (handle: Handle<T>)
        ensures
            handle == Self::at(index, generation),
    {
        Handle { index, generation, marker: PhantomData }
    }

    /// The handle for `generation` of slot `index`.
    pub open spec fn at(index: u32, generation: u32) -> Handle<T> {
        Handle { index, generation, marker: PhantomData }
    }

    /// Two handles are the same when slot and generation agree.
    pub fn same(&self, other: &Handle<T>) -> (equal: bool)
        ensures
            equal == (*self == *other),
    {
        self.index == other.index && self.generation == other.generation
    }

}

impl<T> Clone for Handle<T> {
    fn clone(&self) -> (handle: Handle<T>)
        ensures
            handle == *self,
    {
        Handle { index: self.index, generation: self.generation, marker: PhantomData }
    }
}

impl<T> Copy for Handle<T> {

}

struct Slot<T> {
    generation: u32,
    value: Option<T>,
}

/// Slots, the stack of slots that may be used again, and the number of slots
/// the pool may grow to.
pub struct ResourcePool<T> {
    slots: Vec<Slot<T>>,
    free: Vec<u32>,
    limit: u32,
}

impl<T> ResourcePool<T> {
    /// Every slot on the free stack is empty and appears once; an occupied or
    /// reusable slot has a generation that can still be raised.
    pub closed spec fn wf(&self) -> bool {
        &&& self.slots.len() <= self.limit
        &&& forall|k: int| 0 <= k < self.free.len() ==> {
            &&& (#[trigger] self.free[k]) < self.slots.len()
            &&& self.slots[self.free[k] as int].value is None
            &&& self.slots[self.free[k] as int].generation < u32::MAX
        }
        &&& forall|j: int, k: int|
            0 <= j < k < self.free.len() ==> self.free[j] != self.free[k]
        &&& forall|i: int|
            0 <= i < self.slots.len() && (#[trigger] self.slots[i]).value is Some
                ==> self.slots[i].generation < u32::MAX
    }

    /// The live handles and the values they name.
    pub closed spec fn view(&self) -> Map<Handle<T>, T> {
        Map::new(
            |h: Handle<T>|
                h.index < self.slots.len() && self.slots[h.index as int].generation
                    == h.generation && self.slots[h.index as int].value is Some,
            |h: Handle<T>| self.slots[h.index as int].value->0,
        )
    }

    /// A handle is stale once its slot has moved on to a later generation.
    pub closed spec fn is_stale(&self, handle: Handle<T>) -> bool {
        handle.index < self.slots.len() && self.slots[handle.index as int].generation
            > handle.generation
    }

    /// The handles that wait for reuse, the next one to be handed out last.
    pub closed spec fn free_handles(&self) -> Seq<Handle<T>> {
        Seq::new(
            self.free.len() as nat,
            |k: int| Handle::at(self.free[k], self.slots[self.free[k] as int].generation),
        )
    }

    /// How many slots were ever made.
    pub closed spec fn slot_count(&self) -> nat {
        self.slots.len() as nat
    }

    /// How many slots the pool may hold at most.
    pub closed spec fn limit(&self) -> nat {
        self.limit as nat
    }

    /// How many more values the pool takes before it is exhausted.
    pub open spec fn vacancies(&self) -> nat {
        (self.free_handles().len() + self.limit() - self.slot_count()) as nat
    }

    /// The handle that the next successful `insert` returns.
    pub open spec fn next_handle(&self) -> Handle<T> {
        if self.free_handles().len() > 0 {
            self.free_handles().last()
        } else {
            Handle::at(self.slot_count() as u32, 0)
        }
    }

    /// An empty pool that grows as long as a slot number fits in 32 bits.
    pub fn new() -> (pool: ResourcePool<T>)
        ensures
            pool.wf(),
            pool@ == Map::<Handle<T>, T>::empty(),
            pool.free_handles() == Seq::<Handle<T>>::empty(),
            pool.slot_count() == 0,
            pool.limit() == u32::MAX,
            forall|h: Handle<T>| !pool.is_stale(h),
    {
        let pool = ResourcePool { slots: Vec::new(), free: Vec::new(), limit: u32::MAX };
        assert(pool@ =~= Map::<Handle<T>, T>::empty());
        assert(pool.free_handles() =~= Seq::<Handle<T>>::empty());
        pool
    }

    /// An empty pool that never holds more than `capacity` slots.
    pub fn with_capacity(capacity: u32) -> (pool: ResourcePool<T>)
        ensures
            pool.wf(),
            pool@ == Map::<Handle<T>, T>::empty(),
            pool.free_handles() == Seq::<Handle<T>>::empty(),
            pool.slot_count() == 0,
            pool.limit() == capacity,
            forall|h: Handle<T>| !pool.is_stale(h),
    {
        let pool = ResourcePool { slots: Vec::new(), free: Vec::new(), limit: capacity };
        assert(pool@ =~= Map::<Handle<T>, T>::empty());
        assert(pool.free_handles() =~= Seq::<Handle<T>>::empty());
        pool
    }

    /// What `insert` does with `value`: it goes into the slot on top of the
    /// free stack, or into a new slot when the stack is empty, and the
    /// handle of that slot is the result. With neither, `insert` fails and
    /// changes nothing. No stale handle comes back to life.
    pub open spec fn inserts_to(
        &self,
        after: &ResourcePool<T>,
        value: T,
        result: Result<Handle<T>, SlotError>,
    ) -> bool {
        &&& after.limit() == self.limit()
        &&& forall|h: Handle<T>| self.is_stale(h) ==> after.is_stale(h)
        &&& self.vacancies() == 0 ==> {
            &&& result is Err
            &&& after@ == self@
            &&& after.free_handles() == self.free_handles()
            &&& after.slot_count() == self.slot_count()
        }
        &&& self.vacancies() > 0 ==> {
            &&& result == Ok::<Handle<T>, SlotError>(self.next_handle())
            &&& !self@.dom().contains(self.next_handle())
            &&& !after.is_stale(self.next_handle())
            &&& after@ == self@.insert(self.next_handle(), value)
            &&& after.vacancies() == self.vacancies() - 1
        }
        &&& self.free_handles().len() > 0 ==> {
            &&& after.free_handles() == self.free_handles().drop_last()
            &&& after.slot_count() == self.slot_count()
        }
        &&& self.free_handles().len() == 0 && self.vacancies() > 0 ==> {
            &&& after.free_handles() == self.free_handles()
            &&& after.slot_count() == self.slot_count() + 1
        }
    }

    /// Puts `value` into the pool and hands out its handle.
    pub fn insert(&mut self, value: T) -> (result: Result<Handle<T>, SlotError>)
        requires
            old(self).wf(),
        ensures
            final(self).wf(),
            old(self).inserts_to(final(self), value, result),
    {
        if self.free.len() > 0 {
            let top: usize = self.free.len() - 1;
            let index: u32 = self.free[top];
            let generation: u32 = self.slots[index as usize].generation;
            assert(old(self).next_handle() == Handle::<T>::at(index, generation));
            self.free.pop();
            self.slots.set(index as usize, Slot { generation, value: Some(value) });
            let handle = Handle::new(index, generation);
            assert(self.free_handles() =~= old(self).free_handles().drop_last());
            assert(self@ =~= old(self)@.insert(handle, value));
            Ok(handle)
        } else if self.slots.len() < self.limit as usize {
            let index: u32 = self.slots.len() as u32;
            self.slots.push(Slot { generation: 0, value: Some(value) });
            let handle = Handle::new(index, 0);
            assert(self.free_handles() =~= old(self).free_handles());
            assert(self@ =~= old(self)@.insert(handle, value));
            Ok(handle)
        } else {
            Err(SlotError {  })
        }
    }

    /// The value that `handle` names, or nothing when the handle is unknown
    /// or stale.
    pub fn get(&self, handle: Handle<T>) -> (found: Option<&T>)
        requires
            self.wf(),
        ensures
            self@.dom().contains(handle) ==> found == Some(&self@[handle]),
            !self@.dom().contains(handle) ==> found is None,
    {
        let index: usize = handle.index as usize;
        if index < self.slots.len() && self.slots[index].generation == handle.generation {
            self.slots[index].value.as_ref()
        } else {
            None
        }
    }

    /// Whether `handle` names a value of this pool.
    pub fn contains(&self, handle: Handle<T>) -> (live: bool)
        requires
            self.wf(),
        ensures
            live == self@.dom().contains(handle),
    {
        let index: usize = handle.index as usize;
        index < self.slots.len() && self.slots[index].generation == handle.generation
            && self.slots[index].value.is_some()
    }

    /// What `release` does with `handle`: the value that it names leaves the
    /// pool, and the slot's generation is raised, so that the handle is
    /// stale from then on. The slot goes onto the free stack unless its
    /// generations are used up. A handle that names nothing changes
    /// nothing.
    pub open spec fn releases_to(
        &self,
        after: &ResourcePool<T>,
        handle: Handle<T>,
        removed: Option<T>,
    ) -> bool {
        &&& after.limit() == self.limit()
        &&& after.slot_count() == self.slot_count()
        &&& after@ == self@.remove(handle)
        &&& forall|h: Handle<T>| self.is_stale(h) ==> after.is_stale(h)
        &&& self@.dom().contains(handle) ==> {
            &&& removed == Some(self@[handle])
            &&& after.is_stale(handle)
            &&& handle.generation < u32::MAX
        }
        &&& self@.dom().contains(handle) && handle.generation + 1 < u32::MAX
            ==> after.free_handles() == self.free_handles().push(
            Handle::at(handle.index, (handle.generation + 1) as u32),
        )
        &&& !(self@.dom().contains(handle) && handle.generation + 1 < u32::MAX)
            ==> after.free_handles() == self.free_handles()
        &&& !self@.dom().contains(handle) ==> removed is None
    }

    /// Takes the value that `handle` names out of the pool.
    pub fn release(&mut self, handle: Handle<T>) -> (removed: Option<T>)
        requires
            old(self).wf(),
        ensures
            final(self).wf(),
            old(self).releases_to(final(self), handle, removed),
    {
        let index: usize = handle.index as usize;
        if index < self.slots.len() && self.slots[index].generation == handle.generation
            && self.slots[index].value.is_some() {
            let next: u32 = handle.generation + 1;
            let mut slot = Slot { generation: next, value: None };
            assert forall|k: int| 0 <= k < self.free.len() implies self.free[k] != handle.index by {}
            self.slots.set_and_swap(index, &mut slot);
            if next < u32::MAX {
                self.free.push(handle.index);
                assert(self.free_handles() =~= old(self).free_handles().push(
                    Handle::at(handle.index, next),
                ));
            } else {
                assert(self.free_handles() =~= old(self).free_handles());
            }
            assert(self@ =~= old(self)@.remove(handle));
            slot.value
        } else {
            assert(self@ =~= old(self)@.remove(handle));
            None
        }
    }

    /// The value that `handle` names, for changing it in place.
    pub fn get_mut(&mut self, handle: Handle<T>) -> (found: Option<&mut T>)
        requires
            old(self).wf(),
        ensures
            final(self).wf(),
            !old(self)@.dom().contains(handle) ==> found is None && *final(self) == *old(self),
            old(self)@.dom().contains(handle) ==> {
                &&& found matches Some(value)
                &&& *value == old(self)@[handle]
                &&& final(self)@ == old(self)@.insert(handle, *final(value))
                &&& final(self).free_handles() == old(self).free_handles()
                &&& final(self).slot_count() == old(self).slot_count()
                &&& final(self).limit() == old(self).limit()
                &&& forall|h: Handle<T>| old(self).is_stale(h) == final(self).is_stale(h)
            },
    {
        let index: usize = handle.index as usize;
        if index < self.slots.len() && self.slots[index].generation == handle.generation
            && self.slots[index].value.is_some() {
            match &mut self.slots[index].value {
                Some(value) => Some(value),
                None => None,
            }
        } else {
            None
        }
    }

    /// A handle names its value from `insert` until `release`, and nothing
    /// from then on: not after the slot was given to another value, whose
    /// handle differs from it, and not after anything else was put in or
    /// taken out.
    pub proof fn lemma_handle_lives_once(
        pool: ResourcePool<T>,
        filled: ResourcePool<T>,
        freed: ResourcePool<T>,
        later: ResourcePool<T>,
        value: T,
        handle: Handle<T>,
        removed: Option<T>,
        other: T,
        next: Result<Handle<T>, SlotError>,
    )
        requires
            pool.wf(),
            filled.wf(),
            freed.wf(),
            later.wf(),
            pool.inserts_to(&filled, value, Ok(handle)),
            filled.releases_to(&freed, handle, removed),
            freed.inserts_to(&later, other, next),
        ensures
            filled@.dom().contains(handle) && filled@[handle] == value,
            removed == Some(value),
            !freed@.dom().contains(handle),
            !later@.dom().contains(handle),
            next matches Ok(second) ==> second != handle && (handle.generation + 1 < u32::MAX
                ==> second == Handle::<T>::at(handle.index, (handle.generation + 1) as u32)),
    {
        later.lemma_stale_is_dead(handle);
        freed.lemma_stale_is_dead(handle);
    }

    /// A stale handle names nothing, and no later `insert` hands it out again.
    pub proof fn lemma_stale_is_dead(self, handle: Handle<T>)
        requires
            self.wf(),
            self.is_stale(handle),
        ensures
            !self@.dom().contains(handle),
            self.vacancies() > 0 ==> self.next_handle() != handle,
    {
    }
}

} // verus!
