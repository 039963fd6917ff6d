//! The canvas/display within a window that Vulkan draws to (`VkSurfaceKHR`).

use vstd::prelude::*;

verus! {

/// A surface, referred to by its raw `VkSurfaceKHR` handle.
pub struct Surface {
    internal: u64,
}

impl Surface {
    pub closed spec fn spec_handle(&self) -> u64 {
        self.internal
    }

    /// Wraps a created `VkSurfaceKHR` handle.
    pub fn from(internal: u64) -> (r: Surface)
        ensures
            r.spec_handle() == internal,
    {
        Surface { internal }
    }

    /// The raw `VkSurfaceKHR` handle.
    pub fn handle(&self) -> (r: u64)
        ensures
            r == self.spec_handle(),
    {
        self.internal
    }
}

} // verus!
