//! Structs which describe the barriers of a pipeline barrier command.
//! Vulkan objects are referred to by their raw handles.

use vstd::prelude::*;
use crate::flags::access::Access;
use crate::flags::flag_set::{FlagBit, FlagSet, has_bit};
use crate::flags::image_layout::ImageLayout;
use crate::flags::pipeline_stage::PipelineStage;
use crate::structs::SubresourceRange;

verus! {

/// The raw `VK_QUEUE_FAMILY_IGNORED`: no queue family ownership transfer.
pub open spec fn queue_family_ignored() -> u32 {
    u32::MAX
}

/// A collection of barriers for a pipeline, between two stages.
pub struct Pipeline {
    pub src_stage: PipelineStage,
    pub dst_stage: PipelineStage,
    pub kinds: Vec<Kind>,
}

impl Pipeline {
    pub fn new(src: PipelineStage, dst: PipelineStage) -> (r: Self)
        ensures
            r.src_stage == src,
            r.dst_stage == dst,
            r.kinds@.len() == 0,
    {
        Self { src_stage: src, dst_stage: dst, kinds: Vec::new() }
    }

    /// Includes a specific barrier kind in the barriers being marked.
    pub fn with(self, kind: Kind) -> (r: Self)
        ensures
            r.src_stage == self.src_stage,
            r.dst_stage == self.dst_stage,
            r.kinds@ == self.kinds@.push(kind),
    {
        let mut this = self;
        this.kinds.push(kind);
        this
    }
}

/// The kinds of barriers that can be marked.
pub enum Kind {
    /// A barrier around a specific segment of memory.
    Memory(Memory),
    /// A barrier for a specific buffer object.
    Buffer(Buffer),
    /// A barrier for a specific image object.
    Image(Image),
}

/// Defines the access masks that create a memory barrier.
pub struct Memory {
    src_access: FlagSet<Access>,
    dst_access: FlagSet<Access>,
}

impl Default for Memory {
    fn default() -> (r: Self)
        ensures
            r.spec_src_access() == Set::<Access>::empty(),
            r.spec_dst_access() == Set::<Access>::empty(),
            r.well_formed(),
    {
        Self { src_access: FlagSet::empty(), dst_access: FlagSet::empty() }
    }
}

impl Memory {
    pub closed spec fn spec_src_access(&self) -> Set<Access> {
        self.src_access.view()
    }

    pub closed spec fn spec_dst_access(&self) -> Set<Access> {
        self.dst_access.view()
    }

    pub closed spec fn well_formed(&self) -> bool {
        self.src_access.well_formed() && self.dst_access.well_formed()
    }

    /// The raw `VkAccessFlags` of the source accesses.
    pub fn src_access_mask(&self) -> (r: u32)
        requires
            self.well_formed(),
        ensures
            forall|x: Access| #[trigger] has_bit(r, x.spec_index()) == self.spec_src_access().contains(x),
            r < (1u32 << Access::spec_count()),
    {
        Access::fold(&self.src_access)
    }

    /// The raw `VkAccessFlags` of the destination accesses.
    pub fn dst_access_mask(&self) -> (r: u32)
        requires
            self.well_formed(),
        ensures
            forall|x: Access| #[trigger] has_bit(r, x.spec_index()) == self.spec_dst_access().contains(x),
            r < (1u32 << Access::spec_count()),
    {
        Access::fold(&self.dst_access)
    }
}

/// Defines the access masks, queues, and buffer data that creates a buffer barrier.
pub struct Buffer {
    src_access: FlagSet<Access>,
    src_queue_family: u32,
    dst_access: FlagSet<Access>,
    dst_queue_family: u32,
    buffer: u64,
    offset: usize,
    size: usize,
}

impl Default for Buffer {
    /// No accesses, no queue family transfer, the null buffer, and an empty range.
    fn default() -> (r: Self)
        ensures
            r.well_formed(),
            r.spec_src_access() == Set::<Access>::empty(),
            r.spec_dst_access() == Set::<Access>::empty(),
            r.spec_queue_families() == (queue_family_ignored(), queue_family_ignored()),
            r.spec_region() == (0u64, 0usize, 0usize),
    {
        Self {
            src_access: FlagSet::empty(),
            src_queue_family: u32::MAX,
            dst_access: FlagSet::empty(),
            dst_queue_family: u32::MAX,
            buffer: 0,
            offset: 0,
            size: 0,
        }
    }
}

impl Buffer {
    pub closed spec fn well_formed(&self) -> bool {
        self.src_access.well_formed() && self.dst_access.well_formed()
    }

    pub closed spec fn spec_src_access(&self) -> Set<Access> {
        self.src_access.view()
    }

    pub closed spec fn spec_dst_access(&self) -> Set<Access> {
        self.dst_access.view()
    }

    /// The source and destination queue families.
    pub closed spec fn spec_queue_families(&self) -> (u32, u32) {
        (self.src_queue_family, self.dst_queue_family)
    }

    /// The raw buffer handle, offset and size.
    pub closed spec fn spec_region(&self) -> (u64, usize, usize) {
        (self.buffer, self.offset, self.size)
    }

    /// The raw `VkAccessFlags` of the source and destination accesses.
    pub fn access_masks(&self) -> (r: (u32, u32))
        requires
            self.well_formed(),
        ensures
            forall|x: Access| #[trigger] has_bit(r.0, x.spec_index()) == self.spec_src_access().contains(x),
            forall|x: Access| #[trigger] has_bit(r.1, x.spec_index()) == self.spec_dst_access().contains(x),
            r.0 < (1u32 << Access::spec_count()),
            r.1 < (1u32 << Access::spec_count()),
    {
        (Access::fold(&self.src_access), Access::fold(&self.dst_access))
    }

    /// The source and destination queue families.
    pub fn queue_families(&self) -> (r: (u32, u32))
        ensures
            r == self.spec_queue_families(),
    {
        (self.src_queue_family, self.dst_queue_family)
    }

    /// The raw buffer handle, the offset and the size of the region.
    pub fn region(&self) -> (r: (u64, usize, usize))
        ensures
            r == self.spec_region(),
    {
        (self.buffer, self.offset, self.size)
    }
}

/// Defines the access masks, queues, and image data that creates an image barrier.
pub struct Image {
    src_access: FlagSet<Access>,
    src_queue_family: u32,
    dst_access: FlagSet<Access>,
    dst_queue_family: u32,
    image: u64,
    old_layout: ImageLayout,
    new_layout: ImageLayout,
    range: SubresourceRange,
}

impl Default for Image {
    /// No accesses, no queue family transfer, the null image,
    /// undefined layouts and the default range.
    fn default() -> (r: Self)
        ensures
            r.well_formed(),
            r.spec_src_access() == Set::<Access>::empty(),
            r.spec_dst_access() == Set::<Access>::empty(),
            r.spec_queue_families() == (queue_family_ignored(), queue_family_ignored()),
            r.spec_image() == 0,
            r.spec_layouts() == (ImageLayout::Undefined, ImageLayout::Undefined),
            r.spec_range() == (SubresourceRange { aspect_mask: 0, base_mip_level: 0, level_count: 0, base_array_layer: 0, layer_count: 0 }),
    {
        Self {
            src_access: FlagSet::empty(),
            src_queue_family: u32::MAX,
            dst_access: FlagSet::empty(),
            dst_queue_family: u32::MAX,
            image: 0,
            old_layout: ImageLayout::default(),
            new_layout: ImageLayout::default(),
            range: SubresourceRange { aspect_mask: 0, base_mip_level: 0, level_count: 0, base_array_layer: 0, layer_count: 0 },
        }
    }
}

impl Image {
    pub closed spec fn well_formed(&self) -> bool {
        self.src_access.well_formed() && self.dst_access.well_formed()
    }

    pub closed spec fn spec_src_access(&self) -> Set<Access> {
        self.src_access.view()
    }

    pub closed spec fn spec_dst_access(&self) -> Set<Access> {
        self.dst_access.view()
    }

    pub closed spec fn spec_queue_families(&self) -> (u32, u32) {
        (self.src_queue_family, self.dst_queue_family)
    }

    /// The raw image handle.
    pub closed spec fn spec_image(&self) -> u64 {
        self.image
    }

    /// The layout before and after the barrier.
    pub closed spec fn spec_layouts(&self) -> (ImageLayout, ImageLayout) {
        (self.old_layout, self.new_layout)
    }

    pub closed spec fn spec_range(&self) -> SubresourceRange {
        self.range
    }

    /// Everything but the source accesses is the same in `self` and `other`.
    pub open spec fn same_but_src(&self, other: &Image) -> bool {
        &&& self.spec_dst_access() == other.spec_dst_access()
        &&& self.spec_queue_families() == other.spec_queue_families()
        &&& self.spec_image() == other.spec_image()
        &&& self.spec_layouts() == other.spec_layouts()
        &&& self.spec_range() == other.spec_range()
    }

    /// Everything but the destination accesses is the same in `self` and `other`.
    pub open spec fn same_but_dst(&self, other: &Image) -> bool {
        &&& self.spec_src_access() == other.spec_src_access()
        &&& self.spec_queue_families() == other.spec_queue_families()
        &&& self.spec_image() == other.spec_image()
        &&& self.spec_layouts() == other.spec_layouts()
        &&& self.spec_range() == other.spec_range()
    }

    /// Includes a provided access mask that is required for the source access.
    pub fn requires_access(self, access: Access) -> (r: Self)
        requires
            self.well_formed(),
        ensures
            r.well_formed(),
            r.spec_src_access() == self.spec_src_access().insert(access),
            r.same_but_src(&self),
    {
        let mut this = self;
        this.src_access.insert(access);
        this
    }

    /// Includes a provided access mask that is required for the destination access.
    pub fn prevents(self, access: Access) -> (r: Self)
        requires
            self.well_formed(),
        ensures
            r.well_formed(),
            r.spec_dst_access() == self.spec_dst_access().insert(access),
            r.same_but_dst(&self),
    {
        let mut this = self;
        this.dst_access.insert(access);
        this
    }

    /// Includes an image (by its raw handle) in the barrier.
    pub fn with_image(self, image: u64) -> (r: Self)
        ensures
            r.well_formed() == self.well_formed(),
            r.spec_image() == image,
            r.spec_src_access() == self.spec_src_access(),
            r.spec_dst_access() == self.spec_dst_access(),
            r.spec_queue_families() == self.spec_queue_families(),
            r.spec_layouts() == self.spec_layouts(),
            r.spec_range() == self.spec_range(),
    {
        let mut this = self;
        this.image = image;
        this
    }

    /// Indicates the layout change that will happen for the provided image.
    pub fn with_layout(self, prev: ImageLayout, next: ImageLayout) -> (r: Self)
        ensures
            r.well_formed() == self.well_formed(),
            r.spec_layouts() == (prev, next),
            r.spec_src_access() == self.spec_src_access(),
            r.spec_dst_access() == self.spec_dst_access(),
            r.spec_queue_families() == self.spec_queue_families(),
            r.spec_image() == self.spec_image(),
            r.spec_range() == self.spec_range(),
    {
        let mut this = self;
        this.old_layout = prev;
        this.new_layout = next;
        this
    }

    /// Sets the area of the image that is affected.
    pub fn with_range(self, range: SubresourceRange) -> (r: Self)
        ensures
            r.well_formed() == self.well_formed(),
            r.spec_range() == range,
            r.spec_src_access() == self.spec_src_access(),
            r.spec_dst_access() == self.spec_dst_access(),
            r.spec_queue_families() == self.spec_queue_families(),
            r.spec_image() == self.spec_image(),
            r.spec_layouts() == self.spec_layouts(),
    {
        let mut this = self;
        this.range = range;
        this
    }

    /// The raw `VkAccessFlags` of the source and destination accesses.
    pub fn access_masks(&self) -> (r: (u32, u32))
        requires
            self.well_formed(),
        ensures
            forall|x: Access| #[trigger] has_bit(r.0, x.spec_index()) == self.spec_src_access().contains(x),
            forall|x: Access| #[trigger] has_bit(r.1, x.spec_index()) == self.spec_dst_access().contains(x),
            r.0 < (1u32 << Access::spec_count()),
            r.1 < (1u32 << Access::spec_count()),
    {
        (Access::fold(&self.src_access), Access::fold(&self.dst_access))
    }

    pub fn queue_families(&self) -> (r: (u32, u32))
        ensures
            r == self.spec_queue_families(),
    {
        (self.src_queue_family, self.dst_queue_family)
    }

    pub fn image(&self) -> (r: u64)
        ensures
            r == self.spec_image(),
    {
        self.image
    }

    /// The raw `VkImageLayout`s before and after the barrier.
    pub fn layouts(&self) -> (r: (i32, i32))
        ensures
            r == (self.spec_layouts().0.spec_vk(), self.spec_layouts().1.spec_vk()),
    {
        (self.old_layout.to_vk(), self.new_layout.to_vk())
    }

    pub fn range(&self) -> (r: SubresourceRange)
        ensures
            r == self.spec_range(),
    {
        self.range
    }
}

} // verus!
