use vstd::prelude::*;

use crate::error::WebViewError;

verus! {

/// A revocable reference to a value held by a [`Registry`]: the slot it names and the
/// generation that slot had when the value was stored.
#[derive(Clone, Copy, Debug, PartialEq, Eq, Structural)]
pub struct Handle {
    pub index: usize,
    pub generation: u64,
}

struct Slot<T> {
    generation: u64,
    value: Option<T>,
}

/// An arena of slots keyed by generation-checked indices. A handle stays valid until it
/// is released or taken; after that every use of it reports `UseAfterRelease`, also when
/// its slot has been reused for another value.
pub struct Registry<T> {
    slots: Vec<Slot<T>>,
    free: Vec<usize>,
    retired: Ghost<Set<Handle>>,
}

impl<T> Registry<T> {
    /// The handles that are live, with the value each one refers to.
    pub closed spec fn view(&self) -> Map<Handle, T> {
        Map::new(
            |h: Handle| self.is_live(h),
            |h: Handle| self.slots@[h.index as int].value->Some_0,
        )
    }

    spec fn is_live(&self, h: Handle) -> bool {
        &&& h.index < self.slots@.len()
        &&& self.slots@[h.index as int].value is Some
        &&& self.slots@[h.index as int].generation == h.generation
    }

    /// Every handle that was released or taken from this registry.
    pub closed spec fn retired(&self) -> Set<Handle> {
        self.retired@
    }

    pub closed spec fn wf(&self) -> bool {
        &&& forall|k: int|
            0 <= k < self.free@.len() ==> {
                &&& #[trigger] self.free@[k] < self.slots@.len()
                &&& self.slots@[self.free@[k] as int].value is None
                &&& self.slots@[self.free@[k] as int].generation < u64::MAX
            }
        &&& forall|k1: int, k2: int|
            0 <= k1 < self.free@.len() && 0 <= k2 < self.free@.len() && k1 != k2
                ==> #[trigger] self.free@[k1] != #[trigger] self.free@[k2]
        &&& forall|i: int|
            0 <= i < self.slots@.len() && (#[trigger] self.slots@[i]).value is Some
                ==> self.slots@[i].generation < u64::MAX
        &&& forall|h: Handle|
            #[trigger] self.retired@.contains(h) ==> {
                &&& h.index < self.slots@.len()
                &&& h.generation < self.slots@[h.index as int].generation
            }
    }

    /// Writing a new value into the slot of a live handle changes the handle's value
    /// and nothing else.
    proof fn lemma_refill_slot(&self, h: Handle)
        requires
            self.wf(),
            self.is_live(h),
        ensures
            forall|r: Registry<T>, s: Slot<T>|
                #![trigger self.slots@.update(h.index as int, s), r.view()]
                r.slots@ == self.slots@.update(h.index as int, s) && s.value is Some
                    && s.generation == h.generation && r.free == self.free
                    && r.retired == self.retired ==> {
                    &&& r.wf()
                    &&& r@ == self@.insert(h, s.value->Some_0)
                },
    {
        assert forall|r: Registry<T>, s: Slot<T>|
            r.slots@ == self.slots@.update(h.index as int, s) && s.value is Some
                && s.generation == h.generation && r.free == self.free
                && r.retired == self.retired implies {
                &&& r.wf()
                &&& r@ == self@.insert(h, s.value->Some_0)
            } by {
            assert(r@ =~= self@.insert(h, s.value->Some_0));
        }
    }

    /// A released handle stays dead: once a handle has been released or taken, the
    /// registry holds no value for it, whatever was created or released since, so every
    /// `get`, `get_mut`, `take` and `release` of it reports `UseAfterRelease`.
    pub proof fn lemma_released_handle_stays_dead(&self, h: Handle)
        requires
            self.wf(),
            self.retired().contains(h),
        ensures
            !self@.contains_key(h),
    {
    }

    /// An empty registry.
    pub fn new() -> (r: Self)
        ensures
            r.wf(),
            r@ == Map::<Handle, T>::empty(),
            r.retired() == Set::<Handle>::empty(),
    {
        let r = Registry { slots: Vec::new(), free: Vec::new(), retired: Ghost(Set::empty()) };
        assert(r@ =~= Map::<Handle, T>::empty());
        r
    }

    /// Stores `value` and hands out a fresh handle to it. The handle was never handed
    /// out before, so no released handle can come back to life.
    pub fn create(&mut self, value: T) -> (h: Handle)
        requires
            old(self).wf(),
        ensures
            final(self).wf(),
            !old(self)@.contains_key(h),
            !old(self).retired().contains(h),
            final(self)@ == old(self)@.insert(h, value),
            final(self).retired() == old(self).retired(),
    {
        let ghost before = self@;
        match self.free.pop() {
            Some(index) => {
                let generation = self.slots[index].generation;
                let h = Handle { index, generation };
                self.slots.set(index, Slot { generation, value: Some(value) });
                proof {
                    assert forall|k: int| 0 <= k < self.free@.len() implies #[trigger] self.free@[k] != index by {
                        assert(old(self).free@[k] == self.free@[k]);
                        assert(old(self).free@[old(self).free@.len() - 1] == index);
                    }
                    assert(self@ =~= before.insert(h, value));
                }
                h
            },
            None => {
                let index = self.slots.len();
                let h = Handle { index, generation: 0 };
                self.slots.push(Slot { generation: 0, value: Some(value) });
                proof {
                    assert(self@ =~= before.insert(h, value));
                }
                h
            },
        }
    }

    /// Shared access to the value behind a live handle.
    pub fn get(&self, h: Handle) -> (r: Result<&T, WebViewError>)
        requires
            self.wf(),
        ensures
            r is Ok <==> self@.contains_key(h),
            r matches Ok(v) ==> *v == self@[h],
            r matches Err(e) ==> e == WebViewError::UseAfterRelease,
    {
        if h.index < self.slots.len() {
            let slot = &self.slots[h.index];
            if slot.generation == h.generation {
                match &slot.value {
                    Some(v) => return Ok(v),
                    None => {},
                }
            }
        }
        Err(WebViewError::UseAfterRelease)
    }
    /// Exclusive access to the value behind a live handle; what the caller writes
    /// through the reference becomes the handle's value.
    pub fn get_mut(&mut self, h: Handle) -> (r: Result<&mut T, WebViewError>)
        requires
            old(self).wf(),
        ensures
            r is Ok <==> old(self)@.contains_key(h),
            r matches Ok(v) ==> {
                &&& *v == old(self)@[h]
                &&& final(self)@ == old(self)@.insert(h, *final(v))
                &&& final(self).wf()
                &&& final(self).retired() == old(self).retired()
            },
            r matches Err(e) ==> {
                &&& e == WebViewError::UseAfterRelease
                &&& *final(self) == *old(self)
            },
    {
        if h.index < self.slots.len() && self.slots[h.index].generation == h.generation
            && self.slots[h.index].value.is_some() {
            proof {
                self.lemma_refill_slot(h);
            }
            let slot = &mut self.slots[h.index];
            let v = slot.value.as_mut().unwrap();
            Ok(v)
        } else {
            Err(WebViewError::UseAfterRelease)
        }
    }

    /// Removes the value behind a live handle and hands it over; the handle is released.
    pub fn take(&mut self, h: Handle) -> (r: Result<T, WebViewError>)
        requires
            old(self).wf(),
        ensures
            final(self).wf(),
            r is Ok <==> old(self)@.contains_key(h),
            r matches Ok(v) ==> {
                &&& v == old(self)@[h]
                &&& final(self)@ == old(self)@.remove(h)
                &&& final(self).retired() == old(self).retired().insert(h)
            },
            r matches Err(e) ==> {
                &&& e == WebViewError::UseAfterRelease
                &&& final(self)@ == old(self)@
                &&& final(self).retired() == old(self).retired()
            },
    {
        if h.index < self.slots.len() && self.slots[h.index].generation == h.generation
            && self.slots[h.index].value.is_some() {
            let ghost before = self@;
            let generation = h.generation + 1;
            let mut old_slot = Slot { generation, value: None };
            std::mem::swap(&mut self.slots[h.index], &mut old_slot);
            let v = old_slot.value.unwrap();
            if generation < u64::MAX {
                self.free.push(h.index);
            }
            proof {
                self.retired@ = self.retired@.insert(h);
                assert forall|k: int| 0 <= k < old(self).free@.len() implies #[trigger] old(self).free@[k] != h.index by {}
                assert(self@ =~= before.remove(h));
            }
            Ok(v)
        } else {
            Err(WebViewError::UseAfterRelease)
        }
    }

    /// Drops the value behind a live handle. Releasing a handle twice is reported, and
    /// leaves the registry as it was.
    pub fn release(&mut self, h: Handle) -> (r: Result<(), WebViewError>)
        requires
            old(self).wf(),
        ensures
            final(self).wf(),
            r is Ok <==> old(self)@.contains_key(h),
            r is Ok ==> {
                &&& final(self)@ == old(self)@.remove(h)
                &&& final(self).retired() == old(self).retired().insert(h)
            },
            r matches Err(e) ==> {
                &&& e == WebViewError::UseAfterRelease
                &&& final(self)@ == old(self)@
                &&& final(self).retired() == old(self).retired()
            },
    {
        match self.take(h) {
            Ok(_) => Ok(()),
            Err(e) => Err(e),
        }
    }
}

impl<T: Clone> Registry<T> {
    /// A clone of the value behind a live handle, for values that are cheap to share
    /// (reference-counted ones); handles themselves are never duplicated implicitly.
    pub fn clone_value(&self, h: Handle) -> (r: Result<T, WebViewError>)
        requires
            self.wf(),
        ensures
            r is Ok <==> self@.contains_key(h),
            r matches Ok(v) ==> cloned(self@[h], v),
            r matches Err(e) ==> e == WebViewError::UseAfterRelease,
    {
        match self.get(h) {
            Ok(v) => Ok(v.clone()),
            Err(e) => Err(e),
        }
    }
}

} // verus!
