//! Load and store operations on attachments (`VkAttachmentLoadOp`, `VkAttachmentStoreOp`).

use vstd::prelude::*;

verus! {

/// What happens to the contents of an attachment when a render pass begins.
#[derive(Debug, Clone, Copy, PartialEq, Eq, Hash, Structural)]
pub enum LoadOp {
    Load,
    Clear,
    DontCare,
}

impl Default for LoadOp {
    fn default() -> (r: Self)
        ensures
            r == LoadOp::DontCare,
    {
        Self::DontCare
    }
}

impl LoadOp {
    /// The raw `VkAttachmentLoadOp` value.
    pub open spec fn spec_vk(self) -> i32 {
        match self {
            LoadOp::Load => 0,
            LoadOp::Clear => 1,
            LoadOp::DontCare => 2,
        }
    }

    /// The raw `VkAttachmentLoadOp` value.
    pub fn to_vk(self) -> (r: i32)
        ensures
            r == self.spec_vk(),
    {
        match self {
            Self::Load => 0,
            Self::Clear => 1,
            Self::DontCare => 2,
        }
    }
}

/// What happens to the contents of an attachment when a render pass ends.
#[derive(Debug, Clone, Copy, PartialEq, Eq, Hash, Structural)]
pub enum StoreOp {
    Store,
    DontCare,
}

impl Default for StoreOp {
    fn default() -> (r: Self)
        ensures
            r == StoreOp::DontCare,
    {
        Self::DontCare
    }
}

impl StoreOp {
    /// The raw `VkAttachmentStoreOp` value.
    pub open spec fn spec_vk(self) -> i32 {
        match self {
            StoreOp::Store => 0,
            StoreOp::DontCare => 1,
        }
    }

    /// The raw `VkAttachmentStoreOp` value.
    pub fn to_vk(self) -> (r: i32)
        ensures
            r == self.spec_vk(),
    {
        match self {
            Self::Store => 0,
            Self::DontCare => 1,
        }
    }
}

} // verus!
