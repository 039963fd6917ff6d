//! A frame buffer (`VkFramebuffer`) for a render pass, and the description it is created from.

use vstd::prelude::*;
use crate::structs::Extent2D;

verus! {

/// `Some(characters)` of a name that is set.
pub open spec fn opt_chars(name: Option<String>) -> Option<Seq<char>> {
    match name {
        Some(n) => Some(n@),
        None => None,
    }
}

/// Information used to create a frame buffer: its extent, its number of layers and its
/// optional name.
pub struct Builder {
    extent: Extent2D,
    layer_count: u32,
    name: Option<String>,
}

impl Default for Builder {
    /// A zero extent, one layer and no name.
    fn default() -> (r: Builder)
        ensures
            r.spec_extent() == (Extent2D { width: 0, height: 0 }),
            r.spec_layer_count() == 1,
            r.spec_name() is None,
    {
        Builder { extent: Extent2D { width: 0, height: 0 }, layer_count: 1, name: None }
    }
}

impl Builder {
    pub closed spec fn spec_extent(&self) -> Extent2D {
        self.extent
    }

    pub closed spec fn spec_layer_count(&self) -> u32 {
        self.layer_count
    }

    pub closed spec fn spec_name(&self) -> Option<Seq<char>> {
        opt_chars(self.name)
    }

    /// Sets the resolution of the frame buffer.
    pub fn set_extent(self, extent: Extent2D) -> (r: Builder)
        ensures
            r.spec_extent() == extent,
            r.spec_layer_count() == self.spec_layer_count(),
            r.spec_name() == self.spec_name(),
    {
        let mut this = self;
        this.extent = extent;
        this
    }

    /// Sets or clears the name of the frame buffer.
    pub fn set_optname(&mut self, name: Option<String>)
        ensures
            final(self).spec_name() == opt_chars(name),
            final(self).spec_extent() == old(self).spec_extent(),
            final(self).spec_layer_count() == old(self).spec_layer_count(),
    {
        self.name = name;
    }

    pub fn name(&self) -> (r: &Option<String>)
        ensures
            opt_chars(*r) == self.spec_name(),
    {
        &self.name
    }

    pub fn extent(&self) -> (r: Extent2D)
        ensures
            r == self.spec_extent(),
    {
        self.extent
    }

    pub fn layer_count(&self) -> (r: u32)
        ensures
            r == self.spec_layer_count(),
    {
        self.layer_count
    }
}

/// A created frame buffer, referred to by its raw `VkFramebuffer` handle.
pub struct Framebuffer {
    internal: u64,
}

impl Framebuffer {
    pub closed spec fn spec_handle(&self) -> u64 {
        self.internal
    }

    /// A builder with a zero extent, one layer and no name.
    pub fn builder() -> (r: Builder)
        ensures
            r.spec_extent() == (Extent2D { width: 0, height: 0 }),
            r.spec_layer_count() == 1,
            r.spec_name() is None,
    {
        Builder::default()
    }

    /// Wraps a created frame buffer.
    pub fn from(internal: u64) -> (r: Framebuffer)
        ensures
            r.spec_handle() == internal,
    {
        Framebuffer { internal }
    }

    /// The raw `VkFramebuffer` handle.
    pub fn handle(&self) -> (r: u64)
        ensures
            r == self.spec_handle(),
    {
        self.internal
    }
}

} // verus!
