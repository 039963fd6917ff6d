//! Image formats described by their channels, bit width and data type.
//!
//! A format is the raw `VkFormat` value.

use vstd::prelude::*;
use crate::flags::color_component::ColorComponent;

verus! {

/// A raw `VkFormat` value.
pub type Format = i32;

/// The raw `VK_FORMAT_UNDEFINED`.
pub const UNDEFINED: Format = 0;

/// sRGB, 8 bits per channel, red green blue alpha (`R8G8B8A8_SRGB`).
pub const SRGB_8BIT: Format = 43;
/// sRGB, 8 bits, red only (`R8_SRGB`).
pub const SRGB_8BIT_R: Format = 15;
/// Two 32 bit floats (`R32G32_SFLOAT`).
pub const VEC2: Format = 103;
/// Three 32 bit floats (`R32G32B32_SFLOAT`).
pub const VEC3: Format = 106;
/// Four 32 bit floats (`R32G32B32A32_SFLOAT`).
pub const VEC4: Format = 109;

/// How the bits of a channel are interpreted.
#[derive(Debug, Clone, Copy, PartialEq, Eq, Hash, Structural)]
pub enum DataType {
    UnsignedNorm,
    SignedNorm,
    UnsignedScaled,
    SignedScaled,
    UnsignedInt,
    SignedInt,
    SRGB,
    SFloat,
    Block,
}

/// The number of bits per channel.
#[derive(Debug, Clone, Copy, PartialEq, Eq, Hash, Structural)]
pub enum Bits {
    Bit8,
    Bit16,
    Bit32,
    Bit64,
}

/// The channel orders that formats exist for.
#[derive(Debug, Clone, Copy, PartialEq, Eq, Structural)]
pub enum Layout {
    R,
    RG,
    RGB,
    BGR,
    RGBA,
    BGRA,
}

/// The channel order a list of color components spells, if formats exist for it.
pub open spec fn spec_layout(comps: Seq<ColorComponent>) -> Option<Layout> {
    if comps == seq![ColorComponent::R] {
        Some(Layout::R)
    } else if comps == seq![ColorComponent::R, ColorComponent::G] {
        Some(Layout::RG)
    } else if comps == seq![ColorComponent::R, ColorComponent::G, ColorComponent::B] {
        Some(Layout::RGB)
    } else if comps == seq![ColorComponent::B, ColorComponent::G, ColorComponent::R] {
        Some(Layout::BGR)
    } else if comps == seq![ColorComponent::R, ColorComponent::G, ColorComponent::B, ColorComponent::A] {
        Some(Layout::RGBA)
    } else if comps == seq![ColorComponent::B, ColorComponent::G, ColorComponent::R, ColorComponent::A] {
        Some(Layout::BGRA)
    } else {
        None
    }
}

/// The first format of a channel order at a bit width. Vulkan numbers the formats of one
/// channel order and bit width consecutively (one per data type), and the groups one after the other:
/// 7 data types per group for 8 and 16 bits (`R8_UNORM` is 9, `R16_UNORM` is 70),
/// 3 per group for 32 and 64 bits (`R32_UINT` is 98, `R64_UINT` is 110).
/// Blue-green-red orders only exist with 8 bits.
pub open spec fn group_start(layout: Layout, bits: Bits) -> Option<int> {
    match (bits, layout) {
        (Bits::Bit8, Layout::R) => Some(9),
        (Bits::Bit8, Layout::RG) => Some(9int + 7),
        (Bits::Bit8, Layout::RGB) => Some(9int + 2 * 7),
        (Bits::Bit8, Layout::BGR) => Some(9int + 3 * 7),
        (Bits::Bit8, Layout::RGBA) => Some(9int + 4 * 7),
        (Bits::Bit8, Layout::BGRA) => Some(9int + 5 * 7),
        (Bits::Bit16, Layout::R) => Some(70),
        (Bits::Bit16, Layout::RG) => Some(70int + 7),
        (Bits::Bit16, Layout::RGB) => Some(70int + 2 * 7),
        (Bits::Bit16, Layout::RGBA) => Some(70int + 3 * 7),
        (Bits::Bit32, Layout::R) => Some(98),
        (Bits::Bit32, Layout::RG) => Some(98int + 3),
        (Bits::Bit32, Layout::RGB) => Some(98int + 2 * 3),
        (Bits::Bit32, Layout::RGBA) => Some(98int + 3 * 3),
        (Bits::Bit64, Layout::R) => Some(110),
        (Bits::Bit64, Layout::RG) => Some(110int + 3),
        (Bits::Bit64, Layout::RGB) => Some(110int + 2 * 3),
        (Bits::Bit64, Layout::RGBA) => Some(110int + 3 * 3),
        _ => None,
    }
}

/// The position of a data type within a group of formats.
/// 8 bit groups: `UNORM, SNORM, USCALED, SSCALED, UINT, SINT, SRGB`;
/// 16 bit groups: the same with `SFLOAT` in place of `SRGB`;
/// 32 and 64 bit groups: `UINT, SINT, SFLOAT`.
pub open spec fn data_position(bits: Bits, data: DataType) -> Option<int> {
    match (bits, data) {
        (Bits::Bit8, DataType::SRGB) => Some(6),
        (Bits::Bit16, DataType::SFloat) => Some(6),
        (Bits::Bit8, d) | (Bits::Bit16, d) => match d {
            DataType::UnsignedNorm => Some(0),
            DataType::SignedNorm => Some(1),
            DataType::UnsignedScaled => Some(2),
            DataType::SignedScaled => Some(3),
            DataType::UnsignedInt => Some(4),
            DataType::SignedInt => Some(5),
            _ => None,
        },
        (_, DataType::UnsignedInt) => Some(0),
        (_, DataType::SignedInt) => Some(1),
        (_, DataType::SFloat) => Some(2),
        _ => None,
    }
}

/// The format with these channels, bit width and data type, or `UNDEFINED` when there is none.
pub open spec fn spec_format(comps: Seq<ColorComponent>, bits: Bits, data: DataType) -> Format {
    match spec_layout(comps) {
        Some(layout) => match (group_start(layout, bits), data_position(bits, data)) {
            (Some(start), Some(position)) => (start + position) as Format,
            _ => UNDEFINED,
        },
        None => UNDEFINED,
    }
}

/// The default format (`UNDEFINED`).
pub fn default() -> (r: Format)
    ensures
        r == UNDEFINED,
{
    UNDEFINED
}

/// The channel order a list of color components spells, if formats exist for it.
fn layout_of(comps: &[ColorComponent]) -> (r: Option<Layout>)
    ensures
        r == spec_layout(comps@),
{
    let n = comps.len();
    if n == 1 && comps[0] == ColorComponent::R {
        proof { assert(comps@ =~= seq![ColorComponent::R]); }
        Some(Layout::R)
    } else if n == 2 && comps[0] == ColorComponent::R && comps[1] == ColorComponent::G {
        proof { assert(comps@ =~= seq![ColorComponent::R, ColorComponent::G]); }
        Some(Layout::RG)
    } else if n == 3 && comps[0] == ColorComponent::R && comps[1] == ColorComponent::G && comps[2] == ColorComponent::B {
        proof { assert(comps@ =~= seq![ColorComponent::R, ColorComponent::G, ColorComponent::B]); }
        Some(Layout::RGB)
    } else if n == 3 && comps[0] == ColorComponent::B && comps[1] == ColorComponent::G && comps[2] == ColorComponent::R {
        proof { assert(comps@ =~= seq![ColorComponent::B, ColorComponent::G, ColorComponent::R]); }
        Some(Layout::BGR)
    } else if n == 4 && comps[0] == ColorComponent::R && comps[1] == ColorComponent::G && comps[2] == ColorComponent::B
        && comps[3] == ColorComponent::A {
        proof { assert(comps@ =~= seq![ColorComponent::R, ColorComponent::G, ColorComponent::B, ColorComponent::A]); }
        Some(Layout::RGBA)
    } else if n == 4 && comps[0] == ColorComponent::B && comps[1] == ColorComponent::G && comps[2] == ColorComponent::R
        && comps[3] == ColorComponent::A {
        proof { assert(comps@ =~= seq![ColorComponent::B, ColorComponent::G, ColorComponent::R, ColorComponent::A]); }
        Some(Layout::BGRA)
    } else {
        proof {
            assert(comps@ != seq![ColorComponent::R]) by {
                if comps@ == seq![ColorComponent::R] { assert(comps@[0] == ColorComponent::R); }
            }
            assert(comps@ != seq![ColorComponent::R, ColorComponent::G]) by {
                if comps@ == seq![ColorComponent::R, ColorComponent::G] { assert(comps@[1] == ColorComponent::G); }
            }
            assert(comps@ != seq![ColorComponent::R, ColorComponent::G, ColorComponent::B]) by {
                if comps@ == seq![ColorComponent::R, ColorComponent::G, ColorComponent::B] { assert(comps@[2] == ColorComponent::B); }
            }
            assert(comps@ != seq![ColorComponent::B, ColorComponent::G, ColorComponent::R]) by {
                if comps@ == seq![ColorComponent::B, ColorComponent::G, ColorComponent::R] { assert(comps@[2] == ColorComponent::R); }
            }
            assert(comps@ != seq![ColorComponent::R, ColorComponent::G, ColorComponent::B, ColorComponent::A]) by {
                if comps@ == seq![ColorComponent::R, ColorComponent::G, ColorComponent::B, ColorComponent::A] { assert(comps@[3] == ColorComponent::A); }
            }
            assert(comps@ != seq![ColorComponent::B, ColorComponent::G, ColorComponent::R, ColorComponent::A]) by {
                if comps@ == seq![ColorComponent::B, ColorComponent::G, ColorComponent::R, ColorComponent::A] { assert(comps@[3] == ColorComponent::A); }
            }
        }
        None
    }
}

/// The format with these channels, bit width and data type, or `UNDEFINED` when Vulkan has none.
pub fn format(comps: &[ColorComponent], bits: Bits, size: DataType) -> (r: Format)
    ensures
        r == spec_format(comps@, bits, size),
{
    let layout = match layout_of(comps) {
        Some(layout) => layout,
        None => return UNDEFINED,
    };
    match (layout, bits, size) {
        (Layout::R, Bits::Bit8, DataType::UnsignedNorm) => 9, // R8_UNORM
        (Layout::R, Bits::Bit8, DataType::SignedNorm) => 10, // R8_SNORM
        (Layout::R, Bits::Bit8, DataType::UnsignedScaled) => 11, // R8_USCALED
        (Layout::R, Bits::Bit8, DataType::SignedScaled) => 12, // R8_SSCALED
        (Layout::R, Bits::Bit8, DataType::UnsignedInt) => 13, // R8_UINT
        (Layout::R, Bits::Bit8, DataType::SignedInt) => 14, // R8_SINT
        (Layout::R, Bits::Bit8, DataType::SRGB) => 15, // R8_SRGB
        (Layout::RG, Bits::Bit8, DataType::UnsignedNorm) => 16, // R8G8_UNORM
        (Layout::RG, Bits::Bit8, DataType::SignedNorm) => 17, // R8G8_SNORM
        (Layout::RG, Bits::Bit8, DataType::UnsignedScaled) => 18, // R8G8_USCALED
        (Layout::RG, Bits::Bit8, DataType::SignedScaled) => 19, // R8G8_SSCALED
        (Layout::RG, Bits::Bit8, DataType::UnsignedInt) => 20, // R8G8_UINT
        (Layout::RG, Bits::Bit8, DataType::SignedInt) => 21, // R8G8_SINT
        (Layout::RG, Bits::Bit8, DataType::SRGB) => 22, // R8G8_SRGB
        (Layout::RGB, Bits::Bit8, DataType::UnsignedNorm) => 23, // R8G8B8_UNORM
        (Layout::RGB, Bits::Bit8, DataType::SignedNorm) => 24, // R8G8B8_SNORM
        (Layout::RGB, Bits::Bit8, DataType::UnsignedScaled) => 25, // R8G8B8_USCALED
        (Layout::RGB, Bits::Bit8, DataType::SignedScaled) => 26, // R8G8B8_SSCALED
        (Layout::RGB, Bits::Bit8, DataType::UnsignedInt) => 27, // R8G8B8_UINT
        (Layout::RGB, Bits::Bit8, DataType::SignedInt) => 28, // R8G8B8_SINT
        (Layout::RGB, Bits::Bit8, DataType::SRGB) => 29, // R8G8B8_SRGB
        (Layout::BGR, Bits::Bit8, DataType::UnsignedNorm) => 30, // B8G8R8_UNORM
        (Layout::BGR, Bits::Bit8, DataType::SignedNorm) => 31, // B8G8R8_SNORM
        (Layout::BGR, Bits::Bit8, DataType::UnsignedScaled) => 32, // B8G8R8_USCALED
        (Layout::BGR, Bits::Bit8, DataType::SignedScaled) => 33, // B8G8R8_SSCALED
        (Layout::BGR, Bits::Bit8, DataType::UnsignedInt) => 34, // B8G8R8_UINT
        (Layout::BGR, Bits::Bit8, DataType::SignedInt) => 35, // B8G8R8_SINT
        (Layout::BGR, Bits::Bit8, DataType::SRGB) => 36, // B8G8R8_SRGB
        (Layout::RGBA, Bits::Bit8, DataType::UnsignedNorm) => 37, // R8G8B8A8_UNORM
        (Layout::RGBA, Bits::Bit8, DataType::SignedNorm) => 38, // R8G8B8A8_SNORM
        (Layout::RGBA, Bits::Bit8, DataType::UnsignedScaled) => 39, // R8G8B8A8_USCALED
        (Layout::RGBA, Bits::Bit8, DataType::SignedScaled) => 40, // R8G8B8A8_SSCALED
        (Layout::RGBA, Bits::Bit8, DataType::UnsignedInt) => 41, // R8G8B8A8_UINT
        (Layout::RGBA, Bits::Bit8, DataType::SignedInt) => 42, // R8G8B8A8_SINT
        (Layout::RGBA, Bits::Bit8, DataType::SRGB) => 43, // R8G8B8A8_SRGB
        (Layout::BGRA, Bits::Bit8, DataType::UnsignedNorm) => 44, // B8G8R8A8_UNORM
        (Layout::BGRA, Bits::Bit8, DataType::SignedNorm) => 45, // B8G8R8A8_SNORM
        (Layout::BGRA, Bits::Bit8, DataType::UnsignedScaled) => 46, // B8G8R8A8_USCALED
        (Layout::BGRA, Bits::Bit8, DataType::SignedScaled) => 47, // B8G8R8A8_SSCALED
        (Layout::BGRA, Bits::Bit8, DataType::UnsignedInt) => 48, // B8G8R8A8_UINT
        (Layout::BGRA, Bits::Bit8, DataType::SignedInt) => 49, // B8G8R8A8_SINT
        (Layout::BGRA, Bits::Bit8, DataType::SRGB) => 50, // B8G8R8A8_SRGB
        (Layout::R, Bits::Bit16, DataType::UnsignedNorm) => 70, // R16_UNORM
        (Layout::R, Bits::Bit16, DataType::SignedNorm) => 71, // R16_SNORM
        (Layout::R, Bits::Bit16, DataType::UnsignedScaled) => 72, // R16_USCALED
        (Layout::R, Bits::Bit16, DataType::SignedScaled) => 73, // R16_SSCALED
        (Layout::R, Bits::Bit16, DataType::UnsignedInt) => 74, // R16_UINT
        (Layout::R, Bits::Bit16, DataType::SignedInt) => 75, // R16_SINT
        (Layout::R, Bits::Bit16, DataType::SFloat) => 76, // R16_SFLOAT
        (Layout::RG, Bits::Bit16, DataType::UnsignedNorm) => 77, // R16G16_UNORM
        (Layout::RG, Bits::Bit16, DataType::SignedNorm) => 78, // R16G16_SNORM
        (Layout::RG, Bits::Bit16, DataType::UnsignedScaled) => 79, // R16G16_USCALED
        (Layout::RG, Bits::Bit16, DataType::SignedScaled) => 80, // R16G16_SSCALED
        (Layout::RG, Bits::Bit16, DataType::UnsignedInt) => 81, // R16G16_UINT
        (Layout::RG, Bits::Bit16, DataType::SignedInt) => 82, // R16G16_SINT
        (Layout::RG, Bits::Bit16, DataType::SFloat) => 83, // R16G16_SFLOAT
        (Layout::RGB, Bits::Bit16, DataType::UnsignedNorm) => 84, // R16G16B16_UNORM
        (Layout::RGB, Bits::Bit16, DataType::SignedNorm) => 85, // R16G16B16_SNORM
        (Layout::RGB, Bits::Bit16, DataType::UnsignedScaled) => 86, // R16G16B16_USCALED
        (Layout::RGB, Bits::Bit16, DataType::SignedScaled) => 87, // R16G16B16_SSCALED
        (Layout::RGB, Bits::Bit16, DataType::UnsignedInt) => 88, // R16G16B16_UINT
        (Layout::RGB, Bits::Bit16, DataType::SignedInt) => 89, // R16G16B16_SINT
        (Layout::RGB, Bits::Bit16, DataType::SFloat) => 90, // R16G16B16_SFLOAT
        (Layout::RGBA, Bits::Bit16, DataType::UnsignedNorm) => 91, // R16G16B16A16_UNORM
        (Layout::RGBA, Bits::Bit16, DataType::SignedNorm) => 92, // R16G16B16A16_SNORM
        (Layout::RGBA, Bits::Bit16, DataType::UnsignedScaled) => 93, // R16G16B16A16_USCALED
        (Layout::RGBA, Bits::Bit16, DataType::SignedScaled) => 94, // R16G16B16A16_SSCALED
        (Layout::RGBA, Bits::Bit16, DataType::UnsignedInt) => 95, // R16G16B16A16_UINT
        (Layout::RGBA, Bits::Bit16, DataType::SignedInt) => 96, // R16G16B16A16_SINT
        (Layout::RGBA, Bits::Bit16, DataType::SFloat) => 97, // R16G16B16A16_SFLOAT
        (Layout::R, Bits::Bit32, DataType::UnsignedInt) => 98, // R32_UINT
        (Layout::R, Bits::Bit32, DataType::SignedInt) => 99, // R32_SINT
        (Layout::R, Bits::Bit32, DataType::SFloat) => 100, // R32_SFLOAT
        (Layout::RG, Bits::Bit32, DataType::UnsignedInt) => 101, // R32G32_UINT
        (Layout::RG, Bits::Bit32, DataType::SignedInt) => 102, // R32G32_SINT
        (Layout::RG, Bits::Bit32, DataType::SFloat) => 103, // R32G32_SFLOAT
        (Layout::RGB, Bits::Bit32, DataType::UnsignedInt) => 104, // R32G32B32_UINT
        (Layout::RGB, Bits::Bit32, DataType::SignedInt) => 105, // R32G32B32_SINT
        (Layout::RGB, Bits::Bit32, DataType::SFloat) => 106, // R32G32B32_SFLOAT
        (Layout::RGBA, Bits::Bit32, DataType::UnsignedInt) => 107, // R32G32B32A32_UINT
        (Layout::RGBA, Bits::Bit32, DataType::SignedInt) => 108, // R32G32B32A32_SINT
        (Layout::RGBA, Bits::Bit32, DataType::SFloat) => 109, // R32G32B32A32_SFLOAT
        (Layout::R, Bits::Bit64, DataType::UnsignedInt) => 110, // R64_UINT
        (Layout::R, Bits::Bit64, DataType::SignedInt) => 111, // R64_SINT
        (Layout::R, Bits::Bit64, DataType::SFloat) => 112, // R64_SFLOAT
        (Layout::RG, Bits::Bit64, DataType::UnsignedInt) => 113, // R64G64_UINT
        (Layout::RG, Bits::Bit64, DataType::SignedInt) => 114, // R64G64_SINT
        (Layout::RG, Bits::Bit64, DataType::SFloat) => 115, // R64G64_SFLOAT
        (Layout::RGB, Bits::Bit64, DataType::UnsignedInt) => 116, // R64G64B64_UINT
        (Layout::RGB, Bits::Bit64, DataType::SignedInt) => 117, // R64G64B64_SINT
        (Layout::RGB, Bits::Bit64, DataType::SFloat) => 118, // R64G64B64_SFLOAT
        (Layout::RGBA, Bits::Bit64, DataType::UnsignedInt) => 119, // R64G64B64A64_UINT
        (Layout::RGBA, Bits::Bit64, DataType::SignedInt) => 120, // R64G64B64A64_SINT
        (Layout::RGBA, Bits::Bit64, DataType::SFloat) => 121, // R64G64B64A64_SFLOAT
        _ => UNDEFINED,
    }
}

/// Can images of this format hold stencil data?
pub open spec fn spec_stencilable(format: Format) -> bool {
    // S8_UINT, D16_UNORM_S8_UINT, D24_UNORM_S8_UINT, D32_SFLOAT_S8_UINT
    127 <= format <= 130
}

/// Returns true if images of the format hold stencil data.
pub fn stencilable(format: Format) -> (r: bool)
    ensures
        r == spec_stencilable(format),
{
    match format {
        127 => true,
        128 => true,
        129 => true,
        130 => true,
        _ => false,
    }
}

/// A format described by its channels, bit width and data type.
#[derive(Debug, Clone)]
pub struct Components {
    color: Vec<ColorComponent>,
    bits: Bits,
    data: DataType,
}

impl Components {
    pub closed spec fn spec_color(&self) -> Seq<ColorComponent> {
        self.color@
    }

    pub closed spec fn spec_bits(&self) -> Bits {
        self.bits
    }

    pub closed spec fn spec_data(&self) -> DataType {
        self.data
    }

    pub fn new(color: Vec<ColorComponent>, bits: Bits, data: DataType) -> (r: Components)
        ensures
            r.spec_color() == color@,
            r.spec_bits() == bits,
            r.spec_data() == data,
    {
        Components { color, bits, data }
    }

    /// The format these components describe (`UNDEFINED` when Vulkan has none).
    pub fn as_format(&self) -> (r: Format)
        ensures
            r == spec_format(self.spec_color(), self.spec_bits(), self.spec_data()),
    {
        format(self.color.as_slice(), self.bits, self.data)
    }
}

/// The named formats are the ones their descriptions give.
pub proof fn lemma_named_formats()
    ensures
        spec_format(seq![ColorComponent::R, ColorComponent::G, ColorComponent::B, ColorComponent::A], Bits::Bit8, DataType::SRGB) == SRGB_8BIT,
        spec_format(seq![ColorComponent::R], Bits::Bit8, DataType::SRGB) == SRGB_8BIT_R,
        spec_format(seq![ColorComponent::R, ColorComponent::G], Bits::Bit32, DataType::SFloat) == VEC2,
        spec_format(seq![ColorComponent::R, ColorComponent::G, ColorComponent::B], Bits::Bit32, DataType::SFloat) == VEC3,
        spec_format(seq![ColorComponent::R, ColorComponent::G, ColorComponent::B, ColorComponent::A], Bits::Bit32, DataType::SFloat) == VEC4,
{
    let r = seq![ColorComponent::R];
    let rg = seq![ColorComponent::R, ColorComponent::G];
    let rgb = seq![ColorComponent::R, ColorComponent::G, ColorComponent::B];
    let rgba = seq![ColorComponent::R, ColorComponent::G, ColorComponent::B, ColorComponent::A];
    assert(r.len() == 1 && rg.len() == 2 && rgb.len() == 3 && rgba.len() == 4);
    assert(spec_layout(rg) == Some(Layout::RG));
    assert(spec_layout(rgb) == Some(Layout::RGB));
    let bgr = seq![ColorComponent::B, ColorComponent::G, ColorComponent::R];
    assert(rgb[0] != bgr[0]);
    let bgra = seq![ColorComponent::B, ColorComponent::G, ColorComponent::R, ColorComponent::A];
    assert(rgba[0] != bgra[0]);
    assert(spec_layout(rgba) == Some(Layout::RGBA));
}

/// Distinct descriptions never give the same format: a defined format determines its
/// channel order, bit width and data type. No described format holds stencil data.
pub proof fn lemma_format_injective(c1: Seq<ColorComponent>, b1: Bits, d1: DataType, c2: Seq<ColorComponent>, b2: Bits, d2: DataType)
    ensures
        !spec_stencilable(spec_format(c1, b1, d1)),
        spec_format(c1, b1, d1) != UNDEFINED && spec_format(c1, b1, d1) == spec_format(c2, b2, d2)
            ==> spec_layout(c1) == spec_layout(c2) && b1 == b2 && d1 == d2,
{
}

} // verus!
