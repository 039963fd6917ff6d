//! Short-term references to syncing objects.

use vstd::prelude::*;

verus! {

/// A reference to a particular syncing object, by its raw handle.
#[derive(Debug, Clone, Copy, PartialEq, Eq, Structural)]
pub enum SyncObject {
    /// A `VkSemaphore` (signaled on the GPU).
    Semaphore(u64),
    /// A `VkFence` (signaled for the CPU).
    Fence(u64),
}

impl SyncObject {
    /// The semaphore and the fence handed to Vulkan for this object:
    /// the object's handle in its slot, and the null handle (0) in the other.
    pub fn handles(&self) -> (r: (u64, u64))
        ensures
            match *self {
                SyncObject::Semaphore(s) => r == (s, 0u64),
                SyncObject::Fence(f) => r == (0u64, f),
            },
    {
        match self {
            SyncObject::Semaphore(semaphore) => (*semaphore, 0),
            SyncObject::Fence(fence) => (0, *fence),
        }
    }
}

} // verus!
