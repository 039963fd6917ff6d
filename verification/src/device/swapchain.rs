//! Swapchains (`VkSwapchainKHR`): the images presented to the display window, and
//! the builder that describes them.

use vstd::prelude::*;
use vstd::string::StringExecFns;
use crate::device::physical::{Device, SurfaceSupport};
use crate::structs::Extent2D;
use crate::text::{decimal, to_decimal};

verus! {

/// An image returned by acquiring the next image of a swapchain.
#[derive(Debug, PartialEq, Eq, Clone, Copy, Structural)]
pub enum AcquiredImage {
    /// The next image to render to has been determined.
    Available(usize),
    /// The next image to render to has been determined, but the swapchain is
    /// outdated and should be recreated with an updated resolution/extent.
    Suboptimal(usize),
}

/// What `vkAcquireNextImageKHR` reported (the image index, and whether the swapchain
/// is suboptimal), as an [`AcquiredImage`].
pub fn acquired_image(index: u32, is_suboptimal: bool) -> (r: AcquiredImage)
    ensures
        is_suboptimal ==> r == AcquiredImage::Suboptimal(index as usize),
        !is_suboptimal ==> r == AcquiredImage::Available(index as usize),
{
    if is_suboptimal {
        AcquiredImage::Suboptimal(index as usize)
    } else {
        AcquiredImage::Available(index as usize)
    }
}

/// Information used to construct a swapchain (raw Vulkan values for its enumerations and flags).
pub struct Builder {
    image_count: u32,
    image_format: i32,
    image_color_space: i32,
    image_extent: Extent2D,
    image_array_layer_count: u32,
    image_usage: u32,
    sharing_mode: i32,
    pre_transform: u32,
    composite_alpha: u32,
    present_mode: i32,
    is_clipped: bool,
    name: Option<String>,
}

/// The description a swapchain builder holds.
pub struct BuilderModel {
    pub image_count: u32,
    pub image_format: i32,
    pub image_color_space: i32,
    pub image_extent: Extent2D,
    pub image_array_layer_count: u32,
    pub image_usage: u32,
    pub sharing_mode: i32,
    pub pre_transform: u32,
    pub composite_alpha: u32,
    pub present_mode: i32,
    pub is_clipped: bool,
    pub name: Option<Seq<char>>,
}

pub open spec fn opt_view(name: Option<String>) -> Option<Seq<char>> {
    match name {
        Some(n) => Some(n@),
        None => None,
    }
}

impl Default for Builder {
    /// No image, undefined format, sRGB non-linear color space, zero extent and layers,
    /// no usage, exclusive sharing, identity transform, opaque alpha, mailbox presentation,
    /// clipped, unnamed.
    fn default() -> (r: Builder)
        ensures
            r.model() == (BuilderModel {
                image_count: 0,
                image_format: 0,
                image_color_space: 0,
                image_extent: Extent2D { width: 0, height: 0 },
                image_array_layer_count: 0,
                image_usage: 0,
                sharing_mode: 0,
                pre_transform: 1,
                composite_alpha: 1,
                present_mode: 1,
                is_clipped: true,
                name: None,
            }),
    {
        Builder {
            image_count: 0,
            image_format: 0,
            image_color_space: 0,
            image_extent: Extent2D { width: 0, height: 0 },
            image_array_layer_count: 0,
            image_usage: 0,
            sharing_mode: 0,
            pre_transform: 1,
            composite_alpha: 1,
            present_mode: 1,
            is_clipped: true,
            name: None,
        }
    }
}

impl Builder {
    pub closed spec fn model(&self) -> BuilderModel {
        BuilderModel {
            image_count: self.image_count,
            image_format: self.image_format,
            image_color_space: self.image_color_space,
            image_extent: self.image_extent,
            image_array_layer_count: self.image_array_layer_count,
            image_usage: self.image_usage,
            sharing_mode: self.sharing_mode,
            pre_transform: self.pre_transform,
            composite_alpha: self.composite_alpha,
            present_mode: self.present_mode,
            is_clipped: self.is_clipped,
            name: opt_view(self.name),
        }
    }

    /// Sets the number of frame images to use.
    pub fn with_image_count(self, count: u32) -> (r: Builder)
        ensures
            r.model() == (BuilderModel { image_count: count, ..self.model() }),
    {
        let mut this = self;
        this.image_count = count;
        this
    }

    /// Sets the format of the frame images (raw `VkFormat`).
    pub fn with_image_format(self, format: i32) -> (r: Builder)
        ensures
            r.model() == (BuilderModel { image_format: format, ..self.model() }),
    {
        let mut this = self;
        this.image_format = format;
        this
    }

    /// Sets the color space of the frame images (raw `VkColorSpaceKHR`).
    pub fn with_image_color_space(self, color_space: i32) -> (r: Builder)
        ensures
            r.model() == (BuilderModel { image_color_space: color_space, ..self.model() }),
    {
        let mut this = self;
        this.image_color_space = color_space;
        this
    }

    /// Sets the extent/size/dimensions of the frame images.
    pub fn with_image_extent(self, extent: Extent2D) -> (r: Builder)
        ensures
            r.model() == (BuilderModel { image_extent: extent, ..self.model() }),
    {
        let mut this = self;
        this.image_extent = extent;
        this
    }

    /// The extent/size/dimensions of the frame images.
    pub fn image_extent(&self) -> (r: Extent2D)
        ensures
            r == self.model().image_extent,
    {
        self.image_extent
    }

    /// Sets the number of array layers in each frame image.
    pub fn with_image_array_layer_count(self, layer_count: u32) -> (r: Builder)
        ensures
            r.model() == (BuilderModel { image_array_layer_count: layer_count, ..self.model() }),
    {
        let mut this = self;
        this.image_array_layer_count = layer_count;
        this
    }

    /// Sets the usage of the frame images (raw `VkImageUsageFlags`).
    pub fn with_image_usage(self, usage: u32) -> (r: Builder)
        ensures
            r.model() == (BuilderModel { image_usage: usage, ..self.model() }),
    {
        let mut this = self;
        this.image_usage = usage;
        this
    }

    /// Sets the sharing mode of the frame images (raw `VkSharingMode`).
    pub fn with_image_sharing_mode(self, mode: i32) -> (r: Builder)
        ensures
            r.model() == (BuilderModel { sharing_mode: mode, ..self.model() }),
    {
        let mut this = self;
        this.sharing_mode = mode;
        this
    }

    /// Sets the surface transform (raw `VkSurfaceTransformFlagBitsKHR`).
    pub fn with_pre_transform(self, transform: u32) -> (r: Builder)
        ensures
            r.model() == (BuilderModel { pre_transform: transform, ..self.model() }),
    {
        let mut this = self;
        this.pre_transform = transform;
        this
    }

    /// Sets the composite alpha (raw `VkCompositeAlphaFlagBitsKHR`).
    pub fn with_composite_alpha(self, composite_alpha: u32) -> (r: Builder)
        ensures
            r.model() == (BuilderModel { composite_alpha: composite_alpha, ..self.model() }),
    {
        let mut this = self;
        this.composite_alpha = composite_alpha;
        this
    }

    pub fn with_is_clipped(self, is_clipped: bool) -> (r: Builder)
        ensures
            r.model() == (BuilderModel { is_clipped: is_clipped, ..self.model() }),
    {
        let mut this = self;
        this.is_clipped = is_clipped;
        this
    }

    /// Sets the presentation mode (raw `VkPresentModeKHR`).
    pub fn with_present_mode(self, present_mode: i32) -> (r: Builder)
        ensures
            r.model() == (BuilderModel { present_mode: present_mode, ..self.model() }),
    {
        let mut this = self;
        this.present_mode = present_mode;
        this
    }

    /// Takes the extent and transform the surface currently has, and the present mode
    /// chosen for the physical device.
    pub fn fill_from_physical(&mut self, physical: &Device, surface_support: &SurfaceSupport)
        ensures
            final(self).model() == (BuilderModel {
                image_extent: surface_support.capabilities().current_extent,
                pre_transform: surface_support.capabilities().current_transform,
                present_mode: physical.present_mode(),
                ..old(self).model()
            }),
    {
        self.image_extent = surface_support.image_extent();
        self.pre_transform = surface_support.current_transform();
        self.present_mode = physical.selected_present_mode();
    }

    /// Sets or clears the name of the swapchain.
    pub fn set_optname(&mut self, name: Option<String>)
        ensures
            final(self).model() == (BuilderModel { name: opt_view(name), ..old(self).model() }),
    {
        self.name = name;
    }

    pub fn name(&self) -> (r: &Option<String>)
        ensures
            opt_view(*r) == self.model().name,
    {
        &self.name
    }

    pub fn image_count(&self) -> (r: u32)
        ensures
            r == self.model().image_count,
    {
        self.image_count
    }

    pub fn image_format(&self) -> (r: i32)
        ensures
            r == self.model().image_format,
    {
        self.image_format
    }

    pub fn image_color_space(&self) -> (r: i32)
        ensures
            r == self.model().image_color_space,
    {
        self.image_color_space
    }

    pub fn image_array_layer_count(&self) -> (r: u32)
        ensures
            r == self.model().image_array_layer_count,
    {
        self.image_array_layer_count
    }

    pub fn image_usage(&self) -> (r: u32)
        ensures
            r == self.model().image_usage,
    {
        self.image_usage
    }

    pub fn sharing_mode(&self) -> (r: i32)
        ensures
            r == self.model().sharing_mode,
    {
        self.sharing_mode
    }

    pub fn pre_transform(&self) -> (r: u32)
        ensures
            r == self.model().pre_transform,
    {
        self.pre_transform
    }

    pub fn composite_alpha(&self) -> (r: u32)
        ensures
            r == self.model().composite_alpha,
    {
        self.composite_alpha
    }

    pub fn present_mode(&self) -> (r: i32)
        ensures
            r == self.model().present_mode,
    {
        self.present_mode
    }

    pub fn is_clipped(&self) -> (r: bool)
        ensures
            r == self.model().is_clipped,
    {
        self.is_clipped
    }
}

/// `<name>.Frame<i>`.
pub open spec fn spec_frame_name(name: Seq<char>, i: nat) -> Seq<char> {
    name + seq!['.', 'F', 'r', 'a', 'm', 'e'] + decimal(i)
}

/// A created swapchain, referred to by its raw `VkSwapchainKHR` handle.
pub struct Swapchain {
    image_format: i32,
    image_extent: Extent2D,
    internal: u64,
    name: Option<String>,
    image_count: usize,
}

impl Swapchain {
    pub closed spec fn spec_handle(&self) -> u64 {
        self.internal
    }

    pub closed spec fn spec_name(&self) -> Option<Seq<char>> {
        opt_view(self.name)
    }

    pub closed spec fn spec_image_count(&self) -> usize {
        self.image_count
    }

    pub closed spec fn spec_image_format(&self) -> i32 {
        self.image_format
    }

    pub closed spec fn spec_image_extent(&self) -> Extent2D {
        self.image_extent
    }

    /// A builder with the default description.
    pub fn builder() -> (r: Builder)
        ensures
            r.model().image_count == 0,
            r.model().present_mode == 1,
            r.model().name is None,
    {
        Builder::default()
    }

    /// The swapchain created from a builder's description.
    pub fn from(internal: u64, builder: Builder) -> (r: Swapchain)
        ensures
            r.spec_handle() == internal,
            r.spec_image_format() == builder.model().image_format,
            r.spec_image_extent() == builder.model().image_extent,
            r.spec_name() == builder.model().name,
            r.spec_image_count() == builder.model().image_count as usize,
    {
        Swapchain {
            internal,
            image_format: builder.image_format,
            image_extent: builder.image_extent,
            name: builder.name,
            image_count: builder.image_count as usize,
        }
    }

    /// The raw `VkSwapchainKHR` handle.
    pub fn handle(&self) -> (r: u64)
        ensures
            r == self.spec_handle(),
    {
        self.internal
    }

    /// The number of images the swapchain is configured to create.
    pub fn image_count(&self) -> (r: usize)
        ensures
            r == self.spec_image_count(),
    {
        self.image_count
    }

    /// The extent/resolution of the images the swapchain creates.
    pub fn image_extent(&self) -> (r: Extent2D)
        ensures
            r == self.spec_image_extent(),
    {
        self.image_extent
    }

    /// The format of the images the swapchain creates (raw `VkFormat`).
    pub fn image_format(&self) -> (r: i32)
        ensures
            r == self.spec_image_format(),
    {
        self.image_format
    }

    pub fn name(&self) -> (r: &Option<String>)
        ensures
            opt_view(*r) == self.spec_name(),
    {
        &self.name
    }

    /// The name of the `i`-th frame, `<name>.Frame<i>`, when the swapchain is named.
    pub fn frame_name(&self, i: usize) -> (r: Option<String>)
        ensures
            opt_view(r) == match self.spec_name() {
                Some(n) => Some(spec_frame_name(n, i as nat)),
                None => None,
            },
    {
        match &self.name {
            Some(name) => {
                proof {
                    reveal_strlit(".Frame");
                    assert(".Frame"@ =~= seq!['.', 'F', 'r', 'a', 'm', 'e']);
                }
                let mut s = name.clone();
                s.append(".Frame");
                let number = to_decimal(i as u64);
                s.append(number.as_str());
                Some(s)
            },
            None => None,
        }
    }

    /// The name of the `i`-th image, `<name>.Frame<i>.Image`, when the swapchain is named.
    pub fn image_name(&self, i: usize) -> (r: Option<String>)
        ensures
            opt_view(r) == match self.spec_name() {
                Some(n) => Some(spec_frame_name(n, i as nat) + seq!['.', 'I', 'm', 'a', 'g', 'e']),
                None => None,
            },
    {
        match self.frame_name(i) {
            Some(frame) => {
                proof {
                    reveal_strlit(".Image");
                    assert(".Image"@ =~= seq!['.', 'I', 'm', 'a', 'g', 'e']);
                }
                let mut s = frame;
                s.append(".Image");
                Some(s)
            },
            None => None,
        }
    }

    /// The name of the view of the `i`-th image, `<name>.Frame<i>.Image.View`, when the swapchain is named.
    pub fn image_view_name(&self, i: usize) -> (r: Option<String>)
        ensures
            opt_view(r) == match self.spec_name() {
                Some(n) => Some(spec_frame_name(n, i as nat) + seq!['.', 'I', 'm', 'a', 'g', 'e'] + seq!['.', 'V', 'i', 'e', 'w']),
                None => None,
            },
    {
        match self.image_name(i) {
            Some(image) => {
                proof {
                    reveal_strlit(".View");
                    assert(".View"@ =~= seq!['.', 'V', 'i', 'e', 'w']);
                }
                let mut s = image;
                s.append(".View");
                Some(s)
            },
            None => None,
        }
    }
}

} // verus!
