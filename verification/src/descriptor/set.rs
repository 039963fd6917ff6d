//! A descriptor set (`VkDescriptorSet`) and the objects bound to its descriptors.
//!
//! Objects (samplers, image views, buffers) are referred to by their raw handles.
//! A set keeps the handles bound at each descriptor, so that what is bound stays
//! known to the library for as long as the set lives.

use vstd::prelude::*;

verus! {

/// A slot of a set: the binding index and the array element within that binding.
pub type Slot = (u32, u32);

/// One entry of the bound-object table: a slot and the objects bound there.
pub struct BoundEntry {
    pub slot: (u32, u32),
    pub objects: Vec<u64>,
}

/// A collection of descriptors as declared by a descriptor layout.
pub struct DescriptorSet {
    internal: u64,
    layout: u64,
    bound_objects: Vec<BoundEntry>,
}

/// The slots of a table of entries, in order.
pub open spec fn entry_slots(entries: Seq<BoundEntry>) -> Seq<(u32, u32)> {
    entries.map_values(|e: BoundEntry| e.slot)
}

/// The objects of a list of entries, one after the other, in order.
pub open spec fn concat_objects(entries: Seq<BoundEntry>) -> Seq<u64>
    decreases entries.len(),
{
    if entries.len() == 0 {
        Seq::empty()
    } else {
        concat_objects(entries.drop_last()) + entries.last().objects@
    }
}

impl DescriptorSet {
    /// The raw `VkDescriptorSet` handle.
    pub closed spec fn spec_handle(&self) -> u64 {
        self.internal
    }

    /// The raw handle of the layout the set was allocated with.
    pub closed spec fn spec_layout(&self) -> u64 {
        self.layout
    }

    /// The table of bound objects, in the order its slots were first bound.
    pub closed spec fn spec_entries(&self) -> Seq<BoundEntry> {
        self.bound_objects@
    }

    /// No slot occurs twice in the table.
    pub open spec fn well_formed(&self) -> bool {
        entry_slots(self.spec_entries()).no_duplicates()
    }

    /// The objects bound at each slot.
    pub open spec fn bound_map(&self) -> Map<(u32, u32), Seq<u64>> {
        Map::new(
            |s: (u32, u32)| entry_slots(self.spec_entries()).contains(s),
            |s: (u32, u32)| self.spec_entries()[entry_slots(self.spec_entries()).index_of(s)].objects@,
        )
    }

    /// Wraps a set that was allocated with a given layout; nothing is bound yet.
    pub fn from(layout: u64, internal: u64) -> (r: DescriptorSet)
        ensures
            r.well_formed(),
            r.spec_handle() == internal,
            r.spec_layout() == layout,
            r.spec_entries() == Seq::<BoundEntry>::empty(),
            r.bound_map() == Map::<(u32, u32), Seq<u64>>::empty(),
    {
        let r = DescriptorSet { internal, layout, bound_objects: Vec::new() };
        proof {
            assert(r.bound_map() =~= Map::<(u32, u32), Seq<u64>>::empty());
        }
        r
    }

    /// The raw `VkDescriptorSet` handle.
    pub fn handle(&self) -> (r: u64)
        ensures
            r == self.spec_handle(),
    {
        self.internal
    }

    /// The raw handle of the layout the set was allocated with.
    pub fn layout(&self) -> (r: u64)
        ensures
            r == self.spec_layout(),
    {
        self.layout
    }

    /// The position of a slot in the table, if it is bound.
    fn find(&self, idx: (u32, u32)) -> (r: Option<usize>)
        requires
            self.well_formed(),
        ensures
            r is None ==> !entry_slots(self.spec_entries()).contains(idx),
            r matches Some(i) ==> i < self.spec_entries().len() && self.spec_entries()[i as int].slot == idx
                && entry_slots(self.spec_entries()).index_of(idx) == i,
    {
        let mut i: usize = 0;
        while i < self.bound_objects.len()
            invariant
                i <= self.bound_objects@.len(),
                self.well_formed(),
                forall|k: int| 0 <= k < i ==> #[trigger] self.bound_objects@[k].slot != idx,
            decreases self.bound_objects.len() - i,
        {
            if self.bound_objects[i].slot.0 == idx.0 && self.bound_objects[i].slot.1 == idx.1 {
                proof {
                    let slots = entry_slots(self.spec_entries());
                    assert(slots[i as int] == idx);
                    assert(slots.contains(idx));
                    let j = slots.index_of(idx);
                    assert(slots[j] == idx);
                    assert(j == i as int);
                }
                return Some(i);
            }
            i = i + 1;
        }
        proof {
            let slots = entry_slots(self.spec_entries());
            assert forall|k: int| 0 <= k < slots.len() implies slots[k] != idx by {
                assert(self.bound_objects@[k].slot != idx);
            }
        }
        None
    }

    /// Records the objects bound at a slot, replacing what was bound there.
    pub fn set_bound(&mut self, idx: (u32, u32), objects: Vec<u64>)
        requires
            old(self).well_formed(),
        ensures
            final(self).well_formed(),
            final(self).spec_handle() == old(self).spec_handle(),
            final(self).spec_layout() == old(self).spec_layout(),
            final(self).bound_map() == old(self).bound_map().insert(idx, objects@),
    {
        let ghost before = self.spec_entries();
        let ghost objs = objects@;
        match self.find(idx) {
            Some(i) => {
                self.bound_objects.set(i, BoundEntry { slot: idx, objects });
                proof {
                    let s0 = entry_slots(before);
                    let s1 = entry_slots(self.spec_entries());
                    assert(s1 =~= s0);
                    assert(s0[i as int] == idx);
                    assert(s0.contains(idx));
                    assert forall|s: (u32, u32)| s1.contains(s) implies
                        #[trigger] self.spec_entries()[s1.index_of(s)].objects@
                            == old(self).bound_map().insert(idx, objs)[s] by {
                        let j = s1.index_of(s);
                        assert(0 <= j < s0.len() && s0[j] == s);
                        if s != idx {
                            assert(j != i as int);
                            assert(self.spec_entries()[j] == before[j]);
                        } else {
                            assert(j == i as int);
                        }
                    }
                    assert(self.bound_map() =~= old(self).bound_map().insert(idx, objs));
                }
            },
            None => {
                self.bound_objects.push(BoundEntry { slot: idx, objects });
                proof {
                    let s0 = entry_slots(before);
                    let s1 = entry_slots(self.spec_entries());
                    assert(s1 =~= s0.push(idx));
                    assert forall|a: int, b: int| 0 <= a < b < s1.len() implies s1[a] != s1[b] by {
                        if b == s0.len() {
                            assert(s0.contains(s0[a]));
                        }
                    }
                    assert(s1[s0.len() as int] == idx);
                    assert(s1.contains(idx));
                    assert forall|s: (u32, u32)| s1.contains(s) implies
                        #[trigger] self.spec_entries()[s1.index_of(s)].objects@
                            == old(self).bound_map().insert(idx, objs)[s] by {
                        let j = s1.index_of(s);
                        assert(0 <= j < s1.len() && s1[j] == s);
                        if s == idx {
                            if j != s0.len() {
                                assert(s0[j] == idx);
                                assert(s0.contains(idx));
                            }
                        } else {
                            assert(j < s0.len());
                            assert(s0[j] == s);
                            assert(s0.contains(s));
                            let j0 = s0.index_of(s);
                            assert(0 <= j0 < s0.len() && s0[j0] == s);
                            assert(j0 == j);
                            assert(self.spec_entries()[j] == before[j]);
                        }
                    }
                    assert forall|s: (u32, u32)| s1.contains(s) <==> (s0.contains(s) || s == idx) by {
                        if s0.contains(s) {
                            let k = choose|k: int| 0 <= k < s0.len() && s0[k] == s;
                            assert(s1[k] == s);
                        }
                    }
                    assert(self.bound_map() =~= old(self).bound_map().insert(idx, objs));
                }
            },
        }
    }

    /// The objects bound at a slot, which must have been bound.
    pub fn get_bound(&self, idx: (u32, u32)) -> (r: Vec<u64>)
        requires
            self.well_formed(),
            self.bound_map().contains_key(idx),
        ensures
            r@ == self.bound_map()[idx],
    {
        match self.find(idx) {
            Some(i) => self.bound_objects[i].objects.clone(),
            None => {
                proof {
                    assert(false);
                }
                Vec::new()
            },
        }
    }

    /// Every object bound to the set, slot after slot in the order of the table.
    pub fn get_all_bound(&self) -> (r: Vec<u64>)
        ensures
            r@ == concat_objects(self.spec_entries()),
    {
        let mut all: Vec<u64> = Vec::new();
        let mut i: usize = 0;
        while i < self.bound_objects.len()
            invariant
                i <= self.bound_objects@.len(),
                all@ == concat_objects(self.spec_entries().take(i as int)),
            decreases self.bound_objects.len() - i,
        {
            let ghost prefix = self.spec_entries().take(i as int);
            let mut objects = self.bound_objects[i].objects.clone();
            all.append(&mut objects);
            proof {
                let next = self.spec_entries().take(i as int + 1);
                assert(next.drop_last() =~= prefix);
            }
            i = i + 1;
        }
        proof {
            assert(self.spec_entries().take(self.bound_objects@.len() as int) =~= self.spec_entries());
        }
        all
    }
}

} // verus!
