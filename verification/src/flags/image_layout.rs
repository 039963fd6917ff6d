//! Image layouts (`VkImageLayout`).

use vstd::prelude::*;

verus! {

/// The layout of the data of an image.
#[derive(Debug, Clone, Copy, PartialEq, Eq, Hash, Structural)]
pub enum ImageLayout {
    /// Implicit layout an image is when its contents are undefined due to various reasons (e.g. right after creation)
    Undefined,
    /// General layout when image can be used for any kind of access
    General,
    /// Optimal layout when image is only used for color attachment read/write
    ColorAttachmentOptimal,
    /// Optimal layout when image is only used for depth/stencil attachment read/write
    DepthStencilAttachmentOptimal,
    /// Optimal layout when image is used for read only depth/stencil attachment and shader access
    DepthStencilReadOnlyOptimal,
    /// Optimal layout when image is used for read only shader access
    ShaderReadOnlyOptimal,
    /// Optimal layout when image is used only as source of transfer operations
    TransferSrcOptimal,
    /// Optimal layout when image is used only as destination of transfer operations
    TransferDstOptimal,
    /// Initial layout used when the data is populated by the CPU
    Preinitialized,
    // KHR
    PresentSrc,
}

impl Default for ImageLayout {
    fn default() -> (r: Self)
        ensures
            r == ImageLayout::Undefined,
    {
        Self::Undefined
    }
}

impl ImageLayout {
    /// The raw `VkImageLayout` value of the layout.
    pub open spec fn spec_vk(self) -> i32 {
        match self {
            ImageLayout::Undefined => 0,
            ImageLayout::General => 1,
            ImageLayout::ColorAttachmentOptimal => 2,
            ImageLayout::DepthStencilAttachmentOptimal => 3,
            ImageLayout::DepthStencilReadOnlyOptimal => 4,
            ImageLayout::ShaderReadOnlyOptimal => 5,
            ImageLayout::TransferSrcOptimal => 6,
            ImageLayout::TransferDstOptimal => 7,
            ImageLayout::Preinitialized => 8,
            ImageLayout::PresentSrc => 1000001002,
        }
    }

    /// The raw `VkImageLayout` value of the layout.
    pub fn to_vk(self) -> (r: i32)
        ensures
            r == self.spec_vk(),
    {
        match self {
            Self::Undefined => 0,
            Self::General => 1,
            Self::ColorAttachmentOptimal => 2,
            Self::DepthStencilAttachmentOptimal => 3,
            Self::DepthStencilReadOnlyOptimal => 4,
            Self::ShaderReadOnlyOptimal => 5,
            Self::TransferSrcOptimal => 6,
            Self::TransferDstOptimal => 7,
            Self::Preinitialized => 8,
            Self::PresentSrc => 1000001002,
        }
    }
}


/// Each image layout maps to its `VkImageLayout` value: `VK_IMAGE_LAYOUT_UNDEFINED` 0, `GENERAL` 1,
/// `COLOR_ATTACHMENT_OPTIMAL` 2, `DEPTH_STENCIL_ATTACHMENT_OPTIMAL` 3,
/// `DEPTH_STENCIL_READ_ONLY_OPTIMAL` 4, `SHADER_READ_ONLY_OPTIMAL` 5, `TRANSFER_SRC_OPTIMAL` 6,
/// `TRANSFER_DST_OPTIMAL` 7, `PREINITIALIZED` 8 and `VK_IMAGE_LAYOUT_PRESENT_SRC_KHR` 1000001002.
/// So what [`ImageLayout::to_vk`] gives, and the layout a descriptor image write or an image
/// barrier carries, is the Vulkan value of the layout it was given.
pub proof fn lemma_image_layout_vk_values()
    ensures
        ImageLayout::Undefined.spec_vk() == 0i32,
        ImageLayout::General.spec_vk() == 1i32,
        ImageLayout::ColorAttachmentOptimal.spec_vk() == 2i32,
        ImageLayout::DepthStencilAttachmentOptimal.spec_vk() == 3i32,
        ImageLayout::DepthStencilReadOnlyOptimal.spec_vk() == 4i32,
        ImageLayout::ShaderReadOnlyOptimal.spec_vk() == 5i32,
        ImageLayout::TransferSrcOptimal.spec_vk() == 6i32,
        ImageLayout::TransferDstOptimal.spec_vk() == 7i32,
        ImageLayout::Preinitialized.spec_vk() == 8i32,
        ImageLayout::PresentSrc.spec_vk() == 1000001002i32,
{
}

} // verus!
