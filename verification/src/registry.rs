//! Generational handle registry.
//!
//! The boundary hands out opaque handles for native objects (pooled
//! connections, open transactions, undelivered result records). Instead of
//! leaking raw addresses, the registry keys every object by a dense slot
//! index paired with a generation counter: a handle validates only while
//! its slot holds a value stamped with the same generation, so a released
//! handle can never be mistaken for the object that later reuses its slot.

use vstd::prelude::*;

verus! {

/// An opaque caller-held reference to one registered object.
#[derive(Clone, Copy, PartialEq, Eq, Structural, Debug)]
pub struct Handle {
    pub index: usize,
    pub generation: u64,
}

struct Slot<T> {
    generation: u64,
    value: Option<T>,
}

/// A table of registered objects addressed by generational handles.
pub struct Registry<T> {
    slots: Vec<Slot<T>>,
    live: usize,
}

impl<T> Registry<T> {
    /// Number of occupied slots in a slot sequence.
    spec fn occupied(s: Seq<Slot<T>>) -> nat
        decreases s.len(),
    {
        if s.len() == 0 {
            0
        } else {
            Self::occupied(s.drop_last()) + (if s.last().value is Some {
                1nat
            } else {
                0nat
            })
        }
    }

    /// The registry's slot bookkeeping is coherent: the live counter equals
    /// the number of occupied slots.
    pub closed spec fn wf(self) -> bool {
        self.live == Self::occupied(self.slots@)
    }

    /// A handle validates while its slot is occupied and carries the same
    /// generation the handle was issued with.
    pub closed spec fn valid(self, h: Handle) -> bool {
        &&& h.index < self.slots@.len()
        &&& self.slots@[h.index as int].value is Some
        &&& self.slots@[h.index as int].generation == h.generation
    }

    /// The object a valid handle refers to.
    pub closed spec fn value_of(self, h: Handle) -> T
        recommends
            self.valid(h),
    {
        self.slots@[h.index as int].value->Some_0
    }

    /// Number of objects currently registered.
    pub closed spec fn live_count(self) -> nat {
        self.live as nat
    }

    /// A handle whose slot has moved past it: it does not validate now,
    /// and every registry operation keeps it that way, so a released
    /// handle can never be mistaken for a later object.
    pub closed spec fn retired(self, h: Handle) -> bool {
        &&& h.index < self.slots@.len()
        &&& (h.generation < self.slots@[h.index as int].generation || (h.generation
            == self.slots@[h.index as int].generation && self.slots@[h.index as int].value is None))
    }

    /// A retired handle does not validate.
    pub proof fn lemma_retired_not_valid(self, h: Handle)
        requires
            self.retired(h),
        ensures
            !self.valid(h),
    {
    }

    proof fn lemma_occupied_update(s: Seq<Slot<T>>, i: int, slot: Slot<T>)
        requires
            0 <= i < s.len(),
        ensures
            Self::occupied(s.update(i, slot)) == Self::occupied(s) - (if s[i].value is Some {
                1int
            } else {
                0int
            }) + (if slot.value is Some {
                1int
            } else {
                0int
            }),
        decreases s.len(),
    {
        if i == s.len() - 1 {
            assert(s.update(i, slot).drop_last() =~= s.drop_last());
        } else {
            assert(s.update(i, slot).drop_last() =~= s.drop_last().update(i, slot));
            Self::lemma_occupied_update(s.drop_last(), i, slot);
        }
    }

    /// An empty registry, with no handle valid.
    pub fn new() -> (r: Self)
        ensures
            r.wf(),
            r.live_count() == 0,
            forall|h: Handle| !r.valid(h),
    {
        Registry { slots: Vec::new(), live: 0 }
    }

    /// Looks for a vacant slot whose generation counter can still grow.
    fn find_vacant(&self) -> (r: Option<usize>)
        ensures
            match r {
                Option::Some(i) => i < self.slots@.len() && self.slots@[i as int].value is None
                    && self.slots@[i as int].generation < u64::MAX,
                Option::None => true,
            },
    {
        let n = self.slots.len();
        let mut i: usize = 0;
        while i < n
            invariant
                i <= n,
                n == self.slots@.len(),
            decreases n - i,
        {
            let slot = &self.slots[i];
            if slot.value.is_none() && slot.generation < u64::MAX {
                return Option::Some(i);
            }
            i = i + 1;
        }
        Option::None
    }

    /// Registers an object and issues a fresh handle for it. The handle
    /// differs from every handle that was valid before the call, and no
    /// previously released handle becomes valid again.
    pub fn insert(&mut self, value: T) -> (h: Handle)
        requires
            old(self).wf(),
            old(self).live_count() < usize::MAX,
        ensures
            final(self).wf(),
            final(self).valid(h),
            final(self).value_of(h) == value,
            final(self).live_count() == old(self).live_count() + 1,
            forall|h2: Handle| #![trigger old(self).valid(h2)] old(self).valid(h2) ==> h2 != h,
            forall|h2: Handle|
                #![trigger final(self).valid(h2)]
                h2 != h ==> final(self).valid(h2) == old(self).valid(h2),
            forall|h2: Handle|
                #![trigger final(self).value_of(h2)]
                h2 != h && old(self).valid(h2) ==> final(self).value_of(h2) == old(self).value_of(h2),
            forall|h2: Handle|
                #![trigger final(self).retired(h2)]
                old(self).retired(h2) ==> final(self).retired(h2),
    {
        match self.find_vacant() {
            Option::Some(i) => {
                let generation = self.slots[i].generation + 1;
                proof {
                    Self::lemma_occupied_update(
                        self.slots@,
                        i as int,
                        Slot { generation, value: Option::Some(value) },
                    );
                }
                self.slots.set(i, Slot { generation, value: Option::Some(value) });
                self.live = self.live + 1;
                Handle { index: i, generation }
            },
            Option::None => {
                let i = self.slots.len();
                self.slots.push(Slot { generation: 0, value: Option::Some(value) });
                self.live = self.live + 1;
                proof {
                    assert(self.slots@.drop_last() =~= old(self).slots@);
                }
                Handle { index: i, generation: 0 }
            },
        }
    }

    /// Number of objects currently registered.
    pub fn len(&self) -> (n: usize)
        ensures
            n == self.live_count(),
    {
        self.live
    }

    /// The object behind a handle, or `None` for a stale or forged handle.
    pub fn get(&self, h: Handle) -> (r: Option<&T>)
        ensures
            match r {
                Option::Some(v) => self.valid(h) && *v == self.value_of(h),
                Option::None => !self.valid(h),
            },
    {
        if h.index < self.slots.len() {
            let slot = &self.slots[h.index];
            if slot.generation == h.generation {
                match &slot.value {
                    Option::Some(v) => Option::Some(v),
                    Option::None => Option::None,
                }
            } else {
                Option::None
            }
        } else {
            Option::None
        }
    }

    /// Replaces the object behind a valid handle, keeping the handle valid
    /// at the same generation; returns the previous object. A stale or
    /// forged handle leaves the registry untouched.
    pub fn replace(&mut self, h: Handle, value: T) -> (r: Option<T>)
        requires
            old(self).wf(),
        ensures
            final(self).wf(),
            final(self).live_count() == old(self).live_count(),
            old(self).valid(h) ==> r == Option::Some(old(self).value_of(h)) && final(self).valid(h)
                && final(self).value_of(h) == value,
            !old(self).valid(h) ==> r is None && *final(self) == *old(self),
            forall|h2: Handle|
                #![trigger final(self).valid(h2)]
                h2 != h ==> final(self).valid(h2) == old(self).valid(h2),
            forall|h2: Handle|
                #![trigger final(self).value_of(h2)]
                h2 != h && old(self).valid(h2) ==> final(self).value_of(h2) == old(self).value_of(h2),
            forall|h2: Handle|
                #![trigger final(self).retired(h2)]
                old(self).retired(h2) ==> final(self).retired(h2),
    {
        if h.index < self.slots.len() && self.slots[h.index].generation == h.generation
            && self.slots[h.index].value.is_some() {
            proof {
                Self::lemma_occupied_update(
                    self.slots@,
                    h.index as int,
                    Slot { generation: h.generation, value: Option::Some(value) },
                );
            }
            let mut slot = Slot { generation: h.generation, value: Option::Some(value) };
            self.slots.set_and_swap(h.index, &mut slot);
            slot.value
        } else {
            Option::None
        }
    }

    /// Releases a handle and returns the object it referred to; the handle
    /// never validates again. A stale or forged handle leaves the registry
    /// untouched and returns `None`.
    pub fn remove(&mut self, h: Handle) -> (r: Option<T>)
        requires
            old(self).wf(),
        ensures
            final(self).wf(),
            !final(self).valid(h),
            old(self).valid(h) ==> r == Option::Some(old(self).value_of(h)) && final(self).live_count()
                == old(self).live_count() - 1,
            !old(self).valid(h) ==> r is None && *final(self) == *old(self),
            forall|h2: Handle|
                #![trigger final(self).valid(h2)]
                h2 != h ==> final(self).valid(h2) == old(self).valid(h2),
            forall|h2: Handle|
                #![trigger final(self).value_of(h2)]
                h2 != h && old(self).valid(h2) ==> final(self).value_of(h2) == old(self).value_of(h2),
            forall|h2: Handle|
                #![trigger final(self).retired(h2)]
                old(self).retired(h2) ==> final(self).retired(h2),
            old(self).valid(h) ==> final(self).retired(h),
    {
        if h.index < self.slots.len() && self.slots[h.index].generation == h.generation
            && self.slots[h.index].value.is_some() {
            proof {
                Self::lemma_occupied_update(
                    self.slots@,
                    h.index as int,
                    Slot { generation: h.generation, value: Option::None },
                );
            }
            let mut slot = Slot { generation: h.generation, value: Option::None };
            self.slots.set_and_swap(h.index, &mut slot);
            self.live = self.live - 1;
            slot.value
        } else {
            Option::None
        }
    }
}

} // verus!
