//! Descriptor pools (`VkDescriptorPool`): they create descriptor sets from layouts.
//!
//! A pool is allocated up-front with the total number of descriptor sets and the
//! total number of each kind of descriptor. The pool owns the sets it creates; a set
//! stays live while its pool holds it.

use vstd::prelude::*;
use vstd::string::StringExecFns;
use crate::descriptor::set::DescriptorSet;
use crate::descriptor::update::{
    applied_table, copies_resolvable, copy_positions, describes_copy, describes_write, set_handles, write_positions, Queue,
    DescriptorUpdate,
};
use crate::text::{decimal, to_decimal};

verus! {

/// One `VkDescriptorPoolSize`.
pub struct PoolSize {
    /// The raw `VkDescriptorType`.
    pub descriptor_type: i32,
    pub descriptor_count: u32,
}

/// Constructs a [`Pool`] with a maximum number of sets and quantity of descriptors that can be allocated.
pub struct Builder {
    /// The maximum number of sets ever allowed to be allocated from the pool.
    max_sets: u32,
    descriptors: Vec<PoolSize>,
}

impl Default for Builder {
    fn default() -> (r: Builder)
        ensures
            r.spec_max_sets() == 0,
            r.spec_descriptors() == Seq::<PoolSize>::empty(),
    {
        Builder { max_sets: 0, descriptors: Vec::new() }
    }
}

impl Builder {
    pub closed spec fn spec_max_sets(&self) -> u32 {
        self.max_sets
    }

    pub closed spec fn spec_descriptors(&self) -> Seq<PoolSize> {
        self.descriptors@
    }

    /// Sets the maximum number of sets that can be created from the pool.
    pub fn with_total_set_count(self, max_set_count: u32) -> (r: Builder)
        ensures
            r.spec_max_sets() == max_set_count,
            r.spec_descriptors() == self.spec_descriptors(),
    {
        let mut this = self;
        this.max_sets = max_set_count;
        this
    }

    /// Denotes that the pool should create `amount` descriptors of a certain kind,
    /// shared between all descriptor sets allocated from the pool.
    pub fn with_descriptor(self, kind: i32, amount: u32) -> (r: Builder)
        ensures
            r.spec_max_sets() == self.spec_max_sets(),
            r.spec_descriptors() == self.spec_descriptors().push(PoolSize { descriptor_type: kind, descriptor_count: amount }),
    {
        let mut this = self;
        this.descriptors.push(PoolSize { descriptor_type: kind, descriptor_count: amount });
        this
    }

    pub fn max_sets(&self) -> (r: u32)
        ensures
            r == self.spec_max_sets(),
    {
        self.max_sets
    }

    pub fn descriptors(&self) -> (r: &Vec<PoolSize>)
        ensures
            r@ == self.spec_descriptors(),
    {
        &self.descriptors
    }
}

/// The name a set gets when it is allocated without one: `DescriptorSet.<position>`.
pub open spec fn spec_default_set_name(idx: nat) -> Seq<char> {
    seq!['D', 'e', 's', 'c', 'r', 'i', 'p', 't', 'o', 'r', 'S', 'e', 't', '.'] + decimal(idx)
}

/// The name a set gets when it is allocated without one: `DescriptorSet.<position>`.
pub fn default_set_name(idx: usize) -> (r: String)
    ensures
        r@ == spec_default_set_name(idx as nat),
{
    let mut name = String::from_str("DescriptorSet.");
    proof {
        reveal_strlit("DescriptorSet.");
        assert("DescriptorSet."@ =~= seq!['D', 'e', 's', 'c', 'r', 'i', 'p', 't', 'o', 'r', 'S', 'e', 't', '.']);
    }
    let number = to_decimal(idx as u64);
    name.append(number.as_str());
    name
}

/// Creates descriptor sets based on layouts, and owns them.
pub struct Pool {
    internal: u64,
    owned_sets: Vec<DescriptorSet>,
}

impl Pool {
    pub closed spec fn spec_handle(&self) -> u64 {
        self.internal
    }

    /// The sets the pool owns, in the order they were allocated.
    pub closed spec fn spec_sets(&self) -> Seq<DescriptorSet> {
        self.owned_sets@
    }

    /// Every owned set is well formed.
    pub open spec fn well_formed(&self) -> bool {
        forall|j: int| 0 <= j < self.spec_sets().len() ==> (#[trigger] self.spec_sets()[j]).well_formed()
    }

    /// A builder with no sets and no descriptors.
    pub fn builder() -> (r: Builder)
        ensures
            r.spec_max_sets() == 0,
            r.spec_descriptors() == Seq::<PoolSize>::empty(),
    {
        Builder::default()
    }

    /// Wraps a created `VkDescriptorPool` handle; it owns no set yet.
    pub fn from(internal: u64) -> (r: Pool)
        ensures
            r.well_formed(),
            r.spec_handle() == internal,
            r.spec_sets() == Seq::<DescriptorSet>::empty(),
    {
        Pool { internal, owned_sets: Vec::new() }
    }

    /// The raw `VkDescriptorPool` handle.
    pub fn handle(&self) -> (r: u64)
        ensures
            r == self.spec_handle(),
    {
        self.internal
    }

    /// The sets the pool owns, in the order they were allocated.
    pub fn sets(&self) -> (r: &Vec<DescriptorSet>)
        ensures
            r@ == self.spec_sets(),
    {
        &self.owned_sets
    }

    /// Takes ownership of the sets the device allocated for a list of named layouts:
    /// the `i`-th raw set is allocated with the `i`-th layout and gets the `i`-th name.
    /// Gives back the raw handle of each new set (which stays live while the pool holds
    /// it) with the name to give it.
    pub fn allocate_named_descriptor_sets(&mut self, layouts: &Vec<(u64, String)>, raw_sets: &Vec<u64>) -> (r: Vec<(u64, String)>)
        requires
            old(self).well_formed(),
            raw_sets@.len() <= layouts@.len(),
        ensures
            final(self).well_formed(),
            final(self).spec_handle() == old(self).spec_handle(),
            r@.len() == raw_sets@.len(),
            forall|i: int| 0 <= i < raw_sets@.len() ==> (#[trigger] r@[i]).0 == raw_sets@[i] && r@[i].1@ == layouts@[i].1@,
            final(self).spec_sets().len() == old(self).spec_sets().len() + raw_sets@.len(),
            final(self).spec_sets().take(old(self).spec_sets().len() as int) == old(self).spec_sets(),
            forall|i: int| 0 <= i < raw_sets@.len() ==> {
                let s = #[trigger] final(self).spec_sets()[old(self).spec_sets().len() + i];
                &&& s.spec_handle() == raw_sets@[i]
                &&& s.spec_layout() == layouts@[i].0
                &&& s.bound_map() == Map::<(u32, u32), Seq<u64>>::empty()
            },
    {
        let ghost before = self.owned_sets@;
        proof {
            assert(before.take(before.len() as int) =~= before);
            assert forall|j: int| 0 <= j < self.owned_sets@.len() implies (#[trigger] self.owned_sets@[j]).well_formed() by {
                assert(self.spec_sets()[j] == self.owned_sets@[j]);
            }
        }
        let mut handles: Vec<(u64, String)> = Vec::new();
        let mut i: usize = 0;
        while i < raw_sets.len()
            invariant
                raw_sets@.len() <= layouts@.len(),
                i <= raw_sets@.len(),
                handles@.len() == i,
                forall|k: int| 0 <= k < i ==> (#[trigger] handles@[k]).0 == raw_sets@[k] && handles@[k].1@ == layouts@[k].1@,
                self.internal == old(self).internal,
                self.owned_sets@.len() == before.len() + i,
                self.owned_sets@.take(before.len() as int) == before,
                forall|j: int| 0 <= j < self.owned_sets@.len() ==> (#[trigger] self.owned_sets@[j]).well_formed(),
                forall|k: int| 0 <= k < i ==> {
                    let s = #[trigger] self.owned_sets@[before.len() + k];
                    &&& s.spec_handle() == raw_sets@[k]
                    &&& s.spec_layout() == layouts@[k].0
                    &&& s.bound_map() == Map::<(u32, u32), Seq<u64>>::empty()
                },
            decreases raw_sets.len() - i,
        {
            let set = DescriptorSet::from(layouts[i].0, raw_sets[i]);
            let ghost prev = self.owned_sets@;
            self.owned_sets.push(set);
            handles.push((raw_sets[i], layouts[i].1.clone()));
            proof {
                assert(self.owned_sets@.take(before.len() as int) =~= prev.take(before.len() as int));
                assert forall|k: int| 0 <= k < i + 1 implies {
                    let s = #[trigger] self.owned_sets@[before.len() + k];
                    &&& s.spec_handle() == raw_sets@[k]
                    &&& s.spec_layout() == layouts@[k].0
                    &&& s.bound_map() == Map::<(u32, u32), Seq<u64>>::empty()
                } by {
                    if k < i {
                        assert(self.owned_sets@[before.len() + k] == prev[before.len() + k]);
                    }
                }
            }
            i = i + 1;
        }
        handles
    }

    /// Takes ownership of the sets the device allocated for a list of layouts, naming
    /// the `i`-th set `DescriptorSet.i`. Gives back the raw handle of each new set with its name.
    pub fn allocate_descriptor_sets(&mut self, layouts: &Vec<u64>, raw_sets: &Vec<u64>) -> (r: Vec<(u64, String)>)
        requires
            old(self).well_formed(),
            raw_sets@.len() <= layouts@.len(),
        ensures
            final(self).well_formed(),
            final(self).spec_handle() == old(self).spec_handle(),
            r@.len() == raw_sets@.len(),
            forall|i: int| 0 <= i < raw_sets@.len() ==>
                (#[trigger] r@[i]).0 == raw_sets@[i] && r@[i].1@ == spec_default_set_name(i as nat),
            final(self).spec_sets().len() == old(self).spec_sets().len() + raw_sets@.len(),
            final(self).spec_sets().take(old(self).spec_sets().len() as int) == old(self).spec_sets(),
            forall|i: int| 0 <= i < raw_sets@.len() ==> {
                let s = #[trigger] final(self).spec_sets()[old(self).spec_sets().len() + i];
                &&& s.spec_handle() == raw_sets@[i]
                &&& s.spec_layout() == layouts@[i]
                &&& s.bound_map() == Map::<(u32, u32), Seq<u64>>::empty()
            },
    {
        let mut named: Vec<(u64, String)> = Vec::new();
        let mut i: usize = 0;
        while i < layouts.len()
            invariant
                i <= layouts@.len(),
                named@.len() == i,
                forall|k: int| 0 <= k < i ==> (#[trigger] named@[k]).0 == layouts@[k]
                    && named@[k].1@ == spec_default_set_name(k as nat),
            decreases layouts.len() - i,
        {
            named.push((layouts[i], default_set_name(i)));
            i = i + 1;
        }
        self.allocate_named_descriptor_sets(&named, raw_sets)
    }

    /// Applies a queue of descriptor updates to the sets the pool owns.
    pub fn update(&mut self, queue: Queue) -> (r: DescriptorUpdate)
        requires
            old(self).well_formed(),
            copies_resolvable(queue.spec_operations(), old(self).spec_sets()),
        ensures
            final(self).well_formed(),
            final(self).spec_handle() == old(self).spec_handle(),
            final(self).spec_sets().len() == old(self).spec_sets().len(),
            forall|j: int| 0 <= j < old(self).spec_sets().len() ==> {
                &&& (#[trigger] final(self).spec_sets()[j]).spec_handle() == old(self).spec_sets()[j].spec_handle()
                &&& final(self).spec_sets()[j].spec_layout() == old(self).spec_sets()[j].spec_layout()
                &&& final(self).spec_sets()[j].bound_map() == applied_table(queue.spec_operations(), old(self).spec_sets(), j)
            },
            r.writes@.len() == write_positions(
                queue.spec_operations(), queue.spec_operations().len(), set_handles(old(self).spec_sets()), true).len(),
            forall|k: int| 0 <= k < r.writes@.len() ==> describes_write(
                #[trigger] r.writes@[k],
                queue.spec_operations()[write_positions(
                    queue.spec_operations(), queue.spec_operations().len(), set_handles(old(self).spec_sets()), true)[k]],
            ),
            r.copies@.len() == copy_positions(queue.spec_operations(), queue.spec_operations().len()).len(),
            forall|k: int| 0 <= k < r.copies@.len() ==> describes_copy(
                #[trigger] r.copies@[k],
                queue.spec_operations()[copy_positions(queue.spec_operations(), queue.spec_operations().len())[k]],
            ),
            r.skipped@.map_values(|p: usize| p as int) == write_positions(
                queue.spec_operations(), queue.spec_operations().len(), set_handles(old(self).spec_sets()), false),
    {
        queue.apply(&mut self.owned_sets)
    }
}

} // verus!
