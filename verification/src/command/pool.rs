//! Command pools (`VkCommandPool`): command buffer memory is allocated from them.

use vstd::prelude::*;
use vstd::string::StringExecFns;
use crate::text::{decimal, to_decimal};

verus! {

/// Information used to create a command pool (raw `VkCommandPoolCreateFlags`).
pub struct Builder {
    name: String,
    queue_family_index: usize,
    flags: Option<u32>,
}

/// What `vkCreateCommandPool` is asked for.
#[derive(Debug, PartialEq, Eq, Clone, Copy, Structural)]
pub struct PoolCreate {
    pub queue_family_index: u32,
    pub flags: u32,
}

impl Default for Builder {
    fn default() -> (r: Builder)
        ensures
            r.spec_name() == Seq::<char>::empty(),
            r.spec_queue_family_index() == 0,
            r.spec_flags() is None,
    {
        Builder { name: String::new(), queue_family_index: 0, flags: None }
    }
}

impl Builder {
    pub closed spec fn spec_name(&self) -> Seq<char> {
        self.name@
    }

    pub closed spec fn spec_queue_family_index(&self) -> usize {
        self.queue_family_index
    }

    pub closed spec fn spec_flags(&self) -> Option<u32> {
        self.flags
    }

    pub fn with_queue_family_index(self, idx: usize) -> (r: Builder)
        ensures
            r.spec_queue_family_index() == idx,
            r.spec_name() == self.spec_name(),
            r.spec_flags() == self.spec_flags(),
    {
        let mut this = self;
        this.queue_family_index = idx;
        this
    }

    /// Sets the creation flags (replacing any set before).
    pub fn with_flag(self, flag: u32) -> (r: Builder)
        ensures
            r.spec_flags() == Some(flag),
            r.spec_name() == self.spec_name(),
            r.spec_queue_family_index() == self.spec_queue_family_index(),
    {
        let mut this = self;
        this.flags = Some(flag);
        this
    }

    pub fn set_name(&mut self, name: String)
        ensures
            final(self).spec_name() == name@,
            final(self).spec_queue_family_index() == old(self).spec_queue_family_index(),
            final(self).spec_flags() == old(self).spec_flags(),
    {
        self.name = name;
    }

    pub fn name(&self) -> (r: &String)
        ensures
            r@ == self.spec_name(),
    {
        &self.name
    }

    /// What the pool is created with: the family index as a `u32`, and no flag when none was set.
    pub fn create_info(&self) -> (r: PoolCreate)
        ensures
            r.queue_family_index == self.spec_queue_family_index() as u32,
            r.flags == match self.spec_flags() { Some(f) => f, None => 0 },
    {
        PoolCreate {
            queue_family_index: self.queue_family_index as u32,
            flags: match self.flags { Some(f) => f, None => 0 },
        }
    }
}

/// `<pool name>.Buffer<i>`.
pub open spec fn spec_buffer_name(pool: Seq<char>, i: nat) -> Seq<char> {
    pool + seq!['.', 'B', 'u', 'f', 'f', 'e', 'r'] + decimal(i)
}

/// A command buffer, referred to by its raw `VkCommandBuffer` handle, with its name.
pub struct CommandBuffer {
    pub internal: u64,
    pub name: String,
}

/// A command pool, referred to by its raw `VkCommandPool` handle, with its name.
pub struct Pool {
    name: String,
    internal: u64,
}

impl Pool {
    pub closed spec fn spec_name(&self) -> Seq<char> {
        self.name@
    }

    pub closed spec fn spec_handle(&self) -> u64 {
        self.internal
    }

    /// A builder with the default description.
    pub fn builder() -> (r: Builder)
        ensures
            r.spec_name() == Seq::<char>::empty(),
            r.spec_queue_family_index() == 0,
            r.spec_flags() is None,
    {
        Builder::default()
    }

    /// Wraps a created pool.
    pub fn from(name: String, internal: u64) -> (r: Pool)
        ensures
            r.spec_name() == name@,
            r.spec_handle() == internal,
    {
        Pool { name, internal }
    }

    /// The raw `VkCommandPool` handle.
    pub fn handle(&self) -> (r: u64)
        ensures
            r == self.spec_handle(),
    {
        self.internal
    }

    pub fn name(&self) -> (r: &String)
        ensures
            r@ == self.spec_name(),
    {
        &self.name
    }

    /// The names `amount` buffers get when allocated without names: `<pool>.Buffer<i>`.
    pub fn buffer_names(&self, amount: usize) -> (r: Vec<String>)
        ensures
            r@.len() == amount,
            forall|i: int| 0 <= i < amount ==> (#[trigger] r@[i])@ == spec_buffer_name(self.spec_name(), i as nat),
    {
        proof {
            reveal_strlit(".Buffer");
        }
        let mut names: Vec<String> = Vec::new();
        let mut i: usize = 0;
        while i < amount
            invariant
                i <= amount,
                names@.len() == i,
                forall|k: int| 0 <= k < i ==> (#[trigger] names@[k])@ == spec_buffer_name(self.spec_name(), k as nat),
                ".Buffer"@ =~= seq!['.', 'B', 'u', 'f', 'f', 'e', 'r'],
            decreases amount - i,
        {
            let mut name = self.name.clone();
            name.append(".Buffer");
            let number = to_decimal(i as u64);
            name.append(number.as_str());
            names.push(name);
            i = i + 1;
        }
        names
    }

    /// Pairs the buffers the device allocated with their names, in order (as many as
    /// there are of both).
    pub fn allocate_named_buffers(&self, buffer_names: Vec<String>, raw_buffers: &Vec<u64>) -> (r: Vec<CommandBuffer>)
        ensures
            r@.len() == if raw_buffers@.len() < buffer_names@.len() { raw_buffers@.len() } else { buffer_names@.len() },
            forall|i: int| 0 <= i < r@.len() ==> {
                &&& (#[trigger] r@[i]).internal == raw_buffers@[i]
                &&& r@[i].name@ == buffer_names@[i]@
            },
    {
        let mut buffers: Vec<CommandBuffer> = Vec::new();
        let mut i: usize = 0;
        while i < raw_buffers.len() && i < buffer_names.len()
            invariant
                i <= raw_buffers@.len(),
                i <= buffer_names@.len(),
                buffers@.len() == i,
                forall|k: int| 0 <= k < i ==> {
                    &&& (#[trigger] buffers@[k]).internal == raw_buffers@[k]
                    &&& buffers@[k].name@ == buffer_names@[k]@
                },
            decreases raw_buffers.len() - i,
        {
            buffers.push(CommandBuffer { internal: raw_buffers[i], name: buffer_names[i].clone() });
            i = i + 1;
        }
        buffers
    }

    /// Allocates `amount` buffers, named `<pool>.Buffer<i>`.
    pub fn allocate_buffers(&self, amount: usize, raw_buffers: &Vec<u64>) -> (r: Vec<CommandBuffer>)
        ensures
            r@.len() == if raw_buffers@.len() < amount { raw_buffers@.len() } else { amount as nat },
            forall|i: int| 0 <= i < r@.len() ==> {
                &&& (#[trigger] r@[i]).internal == raw_buffers@[i]
                &&& r@[i].name@ == spec_buffer_name(self.spec_name(), i as nat)
            },
    {
        let names = self.buffer_names(amount);
        self.allocate_named_buffers(names, raw_buffers)
    }
}

} // verus!
