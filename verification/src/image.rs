//! Images: data stored on the GPU, including the images a swapchain presents.

use vstd::prelude::*;
use crate::structs::{Extent2D, Extent3D};

verus! {

/// An image, referred to by its raw `VkImage` handle, with its dimensions and format
/// (raw `VkFormat`). Images of a swapchain belong to the swapchain; others own their allocation.
pub struct Image {
    dimensions: Extent3D,
    format: i32,
    internal: u64,
    from_swapchain: bool,
}

impl Image {
    pub closed spec fn spec_handle(&self) -> u64 {
        self.internal
    }

    pub closed spec fn spec_size(&self) -> Extent3D {
        self.dimensions
    }

    pub closed spec fn spec_format(&self) -> i32 {
        self.format
    }

    pub closed spec fn spec_from_swapchain(&self) -> bool {
        self.from_swapchain
    }

    /// An image of a swapchain: one layer deep, with the swapchain's format and extent.
    pub fn from_swapchain(internal: u64, format: i32, dimensions: Extent2D) -> (r: Image)
        ensures
            r.spec_handle() == internal,
            r.spec_format() == format,
            r.spec_size() == (Extent3D { width: dimensions.width, height: dimensions.height, depth: 1 }),
            r.spec_from_swapchain(),
    {
        Image {
            from_swapchain: true,
            internal,
            format,
            dimensions: Extent3D { width: dimensions.width, height: dimensions.height, depth: 1 },
        }
    }

    /// An image created with its own allocation.
    pub fn new(internal: u64, dimensions: Extent3D, format: i32) -> (r: Image)
        ensures
            r.spec_handle() == internal,
            r.spec_format() == format,
            r.spec_size() == dimensions,
            !r.spec_from_swapchain(),
    {
        Image { from_swapchain: false, internal, format, dimensions }
    }

    /// The raw `VkImage` handle.
    pub fn handle(&self) -> (r: u64)
        ensures
            r == self.spec_handle(),
    {
        self.internal
    }

    /// The dimensions of the image allocated.
    pub fn image_size(&self) -> (r: Extent3D)
        ensures
            r == self.spec_size(),
    {
        self.dimensions
    }

    /// The format of the image allocated.
    pub fn format(&self) -> (r: i32)
        ensures
            r == self.spec_format(),
    {
        self.format
    }

    /// Whether the image belongs to a swapchain (and so is not destroyed with this object).
    pub fn is_from_swapchain(&self) -> (r: bool)
        ensures
            r == self.spec_from_swapchain(),
    {
        self.from_swapchain
    }
}

} // verus!
