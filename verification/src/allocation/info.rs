//! The description of an allocation (what `vk_mem::AllocationCreateInfo` is made from).

use vstd::prelude::*;

verus! {

/// The intended usage of the memory (`vk_mem::MemoryUsage`).
#[derive(Debug, PartialEq, Eq, Clone, Copy, Structural)]
pub enum MemoryUsage {
    Unknown,
    GpuOnly,
    CpuOnly,
    CpuToGpu,
    GpuToCpu,
    CpuCopy,
    GpuLazy,
    Auto,
    AutoPreferDevice,
    AutoPreferHost,
}

/// Where an allocated resource lives (`gpu_allocator::MemoryLocation`).
#[derive(Debug, PartialEq, Eq, Clone, Copy, Structural)]
pub enum MemoryLocation {
    /// The driver decides.
    Unknown,
    /// Memory only the GPU accesses.
    GpuOnly,
    /// Memory the CPU writes for the GPU to read.
    CpuToGpu,
    /// Memory the GPU writes for the CPU to read.
    GpuToCpu,
}

/// Builder-pattern struct used to describe an allocation.
/// Allocation flags and memory properties are raw masks
/// (`VmaAllocationCreateFlags`, `VkMemoryPropertyFlags`).
pub struct Builder {
    pub mem_usage: MemoryUsage,
    pub alloc_flags: u32,
    pub required_properties: u32,
    pub preferred_properties: u32,
}

impl Default for Builder {
    fn default() -> (r: Builder)
        ensures
            r == (Builder { mem_usage: MemoryUsage::Unknown, alloc_flags: 0, required_properties: 0, preferred_properties: 0 }),
    {
        Builder { mem_usage: MemoryUsage::Unknown, alloc_flags: 0, required_properties: 0, preferred_properties: 0 }
    }
}

impl Clone for Builder {
    fn clone(&self) -> (r: Builder)
        ensures
            r == *self,
    {
        Builder {
            mem_usage: self.mem_usage,
            alloc_flags: self.alloc_flags,
            required_properties: self.required_properties,
            preferred_properties: self.preferred_properties,
        }
    }
}

impl Builder {
    /// Sets the intended usage of the memory (i.e. if the CPU and/or GPU can access the data).
    pub fn with_usage(self, usage: MemoryUsage) -> (r: Builder)
        ensures
            r == (Builder { mem_usage: usage, ..self }),
    {
        Builder { mem_usage: usage, ..self }
    }

    /// Inserts an allocation flag to mark the allocation for a specific creation type.
    pub fn with_alloc_flag(self, flag: u32) -> (r: Builder)
        ensures
            r == (Builder { alloc_flags: self.alloc_flags | flag, ..self }),
    {
        Builder { alloc_flags: self.alloc_flags | flag, ..self }
    }

    /// Inserts memory properties that need to be supported for the allocation.
    pub fn requires_property(self, property: u32) -> (r: Builder)
        ensures
            r == (Builder { required_properties: self.required_properties | property, ..self }),
    {
        Builder { required_properties: self.required_properties | property, ..self }
    }

    /// Inserts memory properties that should be supported if possible,
    /// but are not required for the allocation to succeed.
    pub fn prefers(self, property: u32) -> (r: Builder)
        ensures
            r == (Builder { preferred_properties: self.preferred_properties | property, ..self }),
    {
        Builder { preferred_properties: self.preferred_properties | property, ..self }
    }
}

} // verus!
