//! Views of images (`VkImageView`) and their builder.

use vstd::prelude::*;
use crate::image::Image;
use crate::structs::SubresourceRange;

verus! {

/// How the components of a view map to those of the image (raw `VkComponentSwizzle`s).
#[derive(Debug, PartialEq, Eq, Clone, Copy, Structural)]
pub struct ComponentMapping {
    pub r: i32,
    pub g: i32,
    pub b: i32,
    pub a: i32,
}

/// The image a view is built for: its raw handle and format.
#[derive(Debug, PartialEq, Eq, Clone, Copy, Structural)]
pub struct ViewedImage {
    pub image: u64,
    pub format: i32,
}

/// The builder for views. The view type is a raw `VkImageViewType`.
pub struct Builder {
    image: Option<ViewedImage>,
    view_type: i32,
    components: ComponentMapping,
    subresource_range: SubresourceRange,
    name: Option<String>,
}

/// What `vkCreateImageView` is asked for; the view uses the format of its image.
#[derive(Debug, PartialEq, Eq, Clone, Copy, Structural)]
pub struct ViewCreate {
    pub image: u64,
    pub view_type: i32,
    pub format: i32,
    pub components: ComponentMapping,
    pub subresource_range: SubresourceRange,
}

impl Default for Builder {
    /// No image yet, a 2D view, the identity `R, G, B, A` swizzle and the default range.
    fn default() -> (r: Builder)
        ensures
            r.spec_image() is None,
            r.spec_view_type() == 1,
            r.spec_components() == (ComponentMapping { r: 3, g: 4, b: 5, a: 6 }),
            r.spec_range() == (SubresourceRange { aspect_mask: 0, base_mip_level: 0, level_count: 0, base_array_layer: 0, layer_count: 0 }),
            r.spec_name() is None,
    {
        Builder {
            image: None,
            view_type: 1,
            components: ComponentMapping { r: 3, g: 4, b: 5, a: 6 },
            subresource_range: SubresourceRange { aspect_mask: 0, base_mip_level: 0, level_count: 0, base_array_layer: 0, layer_count: 0 },
            name: None,
        }
    }
}

impl Builder {
    pub closed spec fn spec_image(&self) -> Option<ViewedImage> {
        self.image
    }

    pub closed spec fn spec_view_type(&self) -> i32 {
        self.view_type
    }

    pub closed spec fn spec_components(&self) -> ComponentMapping {
        self.components
    }

    pub closed spec fn spec_range(&self) -> SubresourceRange {
        self.subresource_range
    }

    pub closed spec fn spec_name(&self) -> Option<Seq<char>> {
        match self.name {
            Some(n) => Some(n@),
            None => None,
        }
    }

    /// Sets the image that the view wraps.
    pub fn for_image(self, image: &Image) -> (r: Builder)
        ensures
            r.spec_image() == Some(ViewedImage { image: image.spec_handle(), format: image.spec_format() }),
            r.spec_view_type() == self.spec_view_type(),
            r.spec_components() == self.spec_components(),
            r.spec_range() == self.spec_range(),
            r.spec_name() == self.spec_name(),
    {
        let mut this = self;
        this.image = Some(ViewedImage { image: image.handle(), format: image.format() });
        this
    }

    /// Sets the view type (2D by default).
    pub fn with_view_type(self, view_type: i32) -> (r: Builder)
        ensures
            r.spec_view_type() == view_type,
            r.spec_image() == self.spec_image(),
            r.spec_components() == self.spec_components(),
            r.spec_range() == self.spec_range(),
            r.spec_name() == self.spec_name(),
    {
        let mut this = self;
        this.view_type = view_type;
        this
    }

    /// Sets the component mapping (the identity `R, G, B, A` by default).
    pub fn with_components(self, components: ComponentMapping) -> (r: Builder)
        ensures
            r.spec_components() == components,
            r.spec_image() == self.spec_image(),
            r.spec_view_type() == self.spec_view_type(),
            r.spec_range() == self.spec_range(),
            r.spec_name() == self.spec_name(),
    {
        let mut this = self;
        this.components = components;
        this
    }

    /// Sets the mip/aspect/layers range.
    pub fn with_range(self, subresource_range: SubresourceRange) -> (r: Builder)
        ensures
            r.spec_range() == subresource_range,
            r.spec_image() == self.spec_image(),
            r.spec_view_type() == self.spec_view_type(),
            r.spec_components() == self.spec_components(),
            r.spec_name() == self.spec_name(),
    {
        let mut this = self;
        this.subresource_range = subresource_range;
        this
    }

    /// Sets or clears the name of the view.
    pub fn with_optname(self, name: Option<String>) -> (r: Builder)
        ensures
            r.spec_name() == (match name { Some(n) => Some(n@), None => None::<Seq<char>> }),
            r.spec_image() == self.spec_image(),
            r.spec_view_type() == self.spec_view_type(),
            r.spec_components() == self.spec_components(),
            r.spec_range() == self.spec_range(),
    {
        let mut this = self;
        this.name = name;
        this
    }

    pub fn name(&self) -> (r: &Option<String>)
        ensures
            (match *r { Some(n) => Some(n@), None => None::<Seq<char>> }) == self.spec_name(),
    {
        &self.name
    }

    /// What the view is created with, in the format of its image.
    /// An image must have been set.
    pub fn create_info(&self) -> (r: ViewCreate)
        requires
            self.spec_image() is Some,
        ensures
            r == (ViewCreate {
                image: self.spec_image()->0.image,
                view_type: self.spec_view_type(),
                format: self.spec_image()->0.format,
                components: self.spec_components(),
                subresource_range: self.spec_range(),
            }),
    {
        match self.image {
            Some(viewed) => ViewCreate {
                image: viewed.image,
                view_type: self.view_type,
                format: viewed.format,
                components: self.components,
                subresource_range: self.subresource_range,
            },
            None => {
                proof {
                    assert(false);
                }
                ViewCreate {
                    image: 0,
                    view_type: self.view_type,
                    format: 0,
                    components: self.components,
                    subresource_range: self.subresource_range,
                }
            },
        }
    }
}

/// A created view, referred to by its raw `VkImageView` handle, with the image it views.
pub struct ImageView {
    internal: u64,
    image: u64,
}

impl ImageView {
    pub closed spec fn spec_handle(&self) -> u64 {
        self.internal
    }

    pub closed spec fn spec_image(&self) -> u64 {
        self.image
    }

    /// A builder with the default description.
    pub fn builder() -> (r: Builder)
        ensures
            r.spec_image() is None,
            r.spec_view_type() == 1,
            r.spec_components() == (ComponentMapping { r: 3, g: 4, b: 5, a: 6 }),
            r.spec_range() == (SubresourceRange { aspect_mask: 0, base_mip_level: 0, level_count: 0, base_array_layer: 0, layer_count: 0 }),
            r.spec_name() is None,
    {
        Builder::default()
    }

    /// Wraps a created view of an image.
    pub fn from(image: u64, internal: u64) -> (r: ImageView)
        ensures
            r.spec_handle() == internal,
            r.spec_image() == image,
    {
        ImageView { internal, image }
    }

    /// The raw `VkImageView` handle.
    pub fn handle(&self) -> (r: u64)
        ensures
            r == self.spec_handle(),
    {
        self.internal
    }

    /// The raw handle of the viewed image.
    pub fn image(&self) -> (r: u64)
        ensures
            r == self.spec_image(),
    {
        self.image
    }
}

} // verus!
