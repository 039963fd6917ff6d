//! Plain structures shared by several modules.

use vstd::prelude::*;

verus! {

/// A two-dimensional extent (`VkExtent2D`), e.g. the resolution of an image.
#[derive(Debug, Default, PartialEq, Eq, Clone, Copy, Structural)]
pub struct Extent2D {
    pub width: u32,
    pub height: u32,
}

/// A three-dimensional extent (`VkExtent3D`).
#[derive(Debug, Default, PartialEq, Eq, Clone, Copy, Structural)]
pub struct Extent3D {
    pub width: u32,
    pub height: u32,
    pub depth: u32,
}

/// A range of the mip levels and array layers of an image (`VkImageSubresourceRange`).
#[derive(Debug, Default, PartialEq, Eq, Clone, Copy, Structural)]
pub struct SubresourceRange {
    /// The raw `VkImageAspectFlags` of the aspects in the range.
    pub aspect_mask: u32,
    pub base_mip_level: u32,
    pub level_count: u32,
    pub base_array_layer: u32,
    pub layer_count: u32,
}

} // verus!
