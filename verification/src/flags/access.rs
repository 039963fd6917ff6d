//! Memory access kinds (`VkAccessFlags`).

use vstd::prelude::*;
use crate::flags::flag_set::{FlagBit, FlagSet, flag_bit, has_bit, lemma_low_bits};
use crate::text::str_equals;

verus! {
/// A kind of memory access.
/// The variants are listed in the order of their `VkAccessFlagBits` bits: variant `i` is bit `1 << i`.
#[derive(Debug, Hash, PartialEq, Eq, Clone, Copy, Structural)]
pub enum Access {
    /// Controls coherency of indirect command reads
    IndirectCommandRead,
    /// Controls coherency of index reads
    IndexRead,
    /// Controls coherency of vertex attribute reads
    VertexAttributeRead,
    /// Controls coherency of uniform buffer reads
    UniformRead,
    /// Controls coherency of input attachment reads
    InputAttachmentRead,
    /// Controls coherency of shader reads
    ShaderRead,
    /// Controls coherency of shader writes
    ShaderWrite,
    /// Controls coherency of color attachment reads
    ColorAttachmentRead,
    /// Controls coherency of color attachment writes
    ColorAttachmentWrite,
    /// Controls coherency of depth/stencil attachment reads
    DepthStencilAttachmentRead,
    /// Controls coherency of depth/stencil attachment writes
    DepthStencilAttachmentWrite,
    /// Controls coherency of transfer reads
    TransferRead,
    /// Controls coherency of transfer writes
    TransferWrite,
    /// Controls coherency of host reads
    HostRead,
    /// Controls coherency of host writes
    HostWrite,
    /// Controls coherency of memory reads
    MemoryRead,
    /// Controls coherency of memory writes
    MemoryWrite,
}

impl FlagBit for Access {
    open spec fn spec_count() -> u32 {
        17
    }

    open spec fn spec_index(self) -> u32 {
        match self {
            Access::IndirectCommandRead => 0,
            Access::IndexRead => 1,
            Access::VertexAttributeRead => 2,
            Access::UniformRead => 3,
            Access::InputAttachmentRead => 4,
            Access::ShaderRead => 5,
            Access::ShaderWrite => 6,
            Access::ColorAttachmentRead => 7,
            Access::ColorAttachmentWrite => 8,
            Access::DepthStencilAttachmentRead => 9,
            Access::DepthStencilAttachmentWrite => 10,
            Access::TransferRead => 11,
            Access::TransferWrite => 12,
            Access::HostRead => 13,
            Access::HostWrite => 14,
            Access::MemoryRead => 15,
            Access::MemoryWrite => 16,
        }
    }

    open spec fn spec_from_index(i: u32) -> Self {
        if i == 0 {
            Access::IndirectCommandRead
        } else if i == 1 {
            Access::IndexRead
        } else if i == 2 {
            Access::VertexAttributeRead
        } else if i == 3 {
            Access::UniformRead
        } else if i == 4 {
            Access::InputAttachmentRead
        } else if i == 5 {
            Access::ShaderRead
        } else if i == 6 {
            Access::ShaderWrite
        } else if i == 7 {
            Access::ColorAttachmentRead
        } else if i == 8 {
            Access::ColorAttachmentWrite
        } else if i == 9 {
            Access::DepthStencilAttachmentRead
        } else if i == 10 {
            Access::DepthStencilAttachmentWrite
        } else if i == 11 {
            Access::TransferRead
        } else if i == 12 {
            Access::TransferWrite
        } else if i == 13 {
            Access::HostRead
        } else if i == 14 {
            Access::HostWrite
        } else if i == 15 {
            Access::MemoryRead
        } else {
            Access::MemoryWrite
        }
    }

    fn count() -> (r: u32) {
        17
    }

    fn index(self) -> (r: u32) {
        match self {
            Access::IndirectCommandRead => 0,
            Access::IndexRead => 1,
            Access::VertexAttributeRead => 2,
            Access::UniformRead => 3,
            Access::InputAttachmentRead => 4,
            Access::ShaderRead => 5,
            Access::ShaderWrite => 6,
            Access::ColorAttachmentRead => 7,
            Access::ColorAttachmentWrite => 8,
            Access::DepthStencilAttachmentRead => 9,
            Access::DepthStencilAttachmentWrite => 10,
            Access::TransferRead => 11,
            Access::TransferWrite => 12,
            Access::HostRead => 13,
            Access::HostWrite => 14,
            Access::MemoryRead => 15,
            Access::MemoryWrite => 16,
        }
    }

    fn from_index(i: u32) -> (r: Self) {
        if i == 0 {
            Access::IndirectCommandRead
        } else if i == 1 {
            Access::IndexRead
        } else if i == 2 {
            Access::VertexAttributeRead
        } else if i == 3 {
            Access::UniformRead
        } else if i == 4 {
            Access::InputAttachmentRead
        } else if i == 5 {
            Access::ShaderRead
        } else if i == 6 {
            Access::ShaderWrite
        } else if i == 7 {
            Access::ColorAttachmentRead
        } else if i == 8 {
            Access::ColorAttachmentWrite
        } else if i == 9 {
            Access::DepthStencilAttachmentRead
        } else if i == 10 {
            Access::DepthStencilAttachmentWrite
        } else if i == 11 {
            Access::TransferRead
        } else if i == 12 {
            Access::TransferWrite
        } else if i == 13 {
            Access::HostRead
        } else if i == 14 {
            Access::HostWrite
        } else if i == 15 {
            Access::MemoryRead
        } else {
            Access::MemoryWrite
        }
    }

    proof fn lemma_count() {
    }

    proof fn lemma_index(x: Self) {
    }

    proof fn lemma_from_index(i: u32) {
    }
}

impl Access {
    /// The raw `VkAccessFlags` bit of the flag.
    pub fn to_vk(self) -> (r: u32)
        ensures
            r == flag_bit(self),
    {
        1u32 << self.index()
    }

    /// The set of the flags listed in a vector.
    pub fn vecset(vec: &Vec<Self>) -> (r: FlagSet<Self>)
        ensures
            r.well_formed(),
            r.view() == vec@.to_set(),
    {
        FlagSet::from_vec(vec)
    }

    /// The raw `VkAccessFlags` value with the bits of the flags in the set.
    pub fn fold(set: &FlagSet<Self>) -> (r: u32)
        requires
            set.well_formed(),
        ensures
            r == set.spec_mask(),
            forall|x: Self| #[trigger] has_bit(r, x.spec_index()) == set.view().contains(x),
            r < (1u32 << Self::spec_count()),
    {
        set.mask()
    }
}

impl Access {
    /// The name of the flag, as written by [`Access::to_string`].
    pub open spec fn spec_name(self) -> Seq<char> {
        match self {
            Access::IndirectCommandRead => "IndirectCommandRead"@,
            Access::IndexRead => "IndexRead"@,
            Access::VertexAttributeRead => "VertexAttributeRead"@,
            Access::UniformRead => "UniformRead"@,
            Access::InputAttachmentRead => "InputAttachmentRead"@,
            Access::ShaderRead => "ShaderRead"@,
            Access::ShaderWrite => "ShaderWrite"@,
            Access::ColorAttachmentRead => "ColorAttachmentRead"@,
            Access::ColorAttachmentWrite => "ColorAttachmentWrite"@,
            Access::DepthStencilAttachmentRead => "DepthStencilAttachmentRead"@,
            Access::DepthStencilAttachmentWrite => "DepthStencilAttachmentWrite"@,
            Access::TransferRead => "TransferRead"@,
            Access::TransferWrite => "TransferWrite"@,
            Access::HostRead => "HostRead"@,
            Access::HostWrite => "HostWrite"@,
            Access::MemoryRead => "MemoryRead"@,
            Access::MemoryWrite => "MemoryWrite"@,
        }
    }

    /// Returns the name of the flag.
    pub fn to_string(&self) -> (r: String)
        ensures
            r@ == self.spec_name(),
    {
        match self {
            Access::IndirectCommandRead => "IndirectCommandRead",
            Access::IndexRead => "IndexRead",
            Access::VertexAttributeRead => "VertexAttributeRead",
            Access::UniformRead => "UniformRead",
            Access::InputAttachmentRead => "InputAttachmentRead",
            Access::ShaderRead => "ShaderRead",
            Access::ShaderWrite => "ShaderWrite",
            Access::ColorAttachmentRead => "ColorAttachmentRead",
            Access::ColorAttachmentWrite => "ColorAttachmentWrite",
            Access::DepthStencilAttachmentRead => "DepthStencilAttachmentRead",
            Access::DepthStencilAttachmentWrite => "DepthStencilAttachmentWrite",
            Access::TransferRead => "TransferRead",
            Access::TransferWrite => "TransferWrite",
            Access::HostRead => "HostRead",
            Access::HostWrite => "HostWrite",
            Access::MemoryRead => "MemoryRead",
            Access::MemoryWrite => "MemoryWrite",
        }.to_owned()
    }

    /// Parses the name of a flag (as written by [`Access::to_string`]).
    pub fn try_from(value: &str) -> (r: Result<Self, ()>)
        ensures
            r matches Ok(x) ==> value@ == x.spec_name(),
            r is Err ==> forall|x: Self| value@ != #[trigger] x.spec_name(),
            forall|x: Self| value@ == #[trigger] x.spec_name() ==> r == Ok::<Self, ()>(x),
    {
        proof {
            assert forall|x: Self, y: Self| #[trigger] x.spec_name() == #[trigger] y.spec_name() implies x == y by {
                lemma_access_names_distinct(x, y);
            }
        }
        if str_equals(value, "IndirectCommandRead") {
            proof {
                assert(Access::IndirectCommandRead.spec_name() == value@);
            }
            Ok(Access::IndirectCommandRead)
        } else if str_equals(value, "IndexRead") {
            proof {
                assert(Access::IndexRead.spec_name() == value@);
            }
            Ok(Access::IndexRead)
        } else if str_equals(value, "VertexAttributeRead") {
            proof {
                assert(Access::VertexAttributeRead.spec_name() == value@);
            }
            Ok(Access::VertexAttributeRead)
        } else if str_equals(value, "UniformRead") {
            proof {
                assert(Access::UniformRead.spec_name() == value@);
            }
            Ok(Access::UniformRead)
        } else if str_equals(value, "InputAttachmentRead") {
            proof {
                assert(Access::InputAttachmentRead.spec_name() == value@);
            }
            Ok(Access::InputAttachmentRead)
        } else if str_equals(value, "ShaderRead") {
            proof {
                assert(Access::ShaderRead.spec_name() == value@);
            }
            Ok(Access::ShaderRead)
        } else if str_equals(value, "ShaderWrite") {
            proof {
                assert(Access::ShaderWrite.spec_name() == value@);
            }
            Ok(Access::ShaderWrite)
        } else if str_equals(value, "ColorAttachmentRead") {
            proof {
                assert(Access::ColorAttachmentRead.spec_name() == value@);
            }
            Ok(Access::ColorAttachmentRead)
        } else if str_equals(value, "ColorAttachmentWrite") {
            proof {
                assert(Access::ColorAttachmentWrite.spec_name() == value@);
            }
            Ok(Access::ColorAttachmentWrite)
        } else if str_equals(value, "DepthStencilAttachmentRead") {
            proof {
                assert(Access::DepthStencilAttachmentRead.spec_name() == value@);
            }
            Ok(Access::DepthStencilAttachmentRead)
        } else if str_equals(value, "DepthStencilAttachmentWrite") {
            proof {
                assert(Access::DepthStencilAttachmentWrite.spec_name() == value@);
            }
            Ok(Access::DepthStencilAttachmentWrite)
        } else if str_equals(value, "TransferRead") {
            proof {
                assert(Access::TransferRead.spec_name() == value@);
            }
            Ok(Access::TransferRead)
        } else if str_equals(value, "TransferWrite") {
            proof {
                assert(Access::TransferWrite.spec_name() == value@);
            }
            Ok(Access::TransferWrite)
        } else if str_equals(value, "HostRead") {
            proof {
                assert(Access::HostRead.spec_name() == value@);
            }
            Ok(Access::HostRead)
        } else if str_equals(value, "HostWrite") {
            proof {
                assert(Access::HostWrite.spec_name() == value@);
            }
            Ok(Access::HostWrite)
        } else if str_equals(value, "MemoryRead") {
            proof {
                assert(Access::MemoryRead.spec_name() == value@);
            }
            Ok(Access::MemoryRead)
        } else if str_equals(value, "MemoryWrite") {
            proof {
                assert(Access::MemoryWrite.spec_name() == value@);
            }
            Ok(Access::MemoryWrite)
        } else {
            proof {
                assert forall|x: Self| value@ != #[trigger] x.spec_name() by {
                    match x {
                        Access::IndirectCommandRead => {},
                        Access::IndexRead => {},
                        Access::VertexAttributeRead => {},
                        Access::UniformRead => {},
                        Access::InputAttachmentRead => {},
                        Access::ShaderRead => {},
                        Access::ShaderWrite => {},
                        Access::ColorAttachmentRead => {},
                        Access::ColorAttachmentWrite => {},
                        Access::DepthStencilAttachmentRead => {},
                        Access::DepthStencilAttachmentWrite => {},
                        Access::TransferRead => {},
                        Access::TransferWrite => {},
                        Access::HostRead => {},
                        Access::HostWrite => {},
                        Access::MemoryRead => {},
                        Access::MemoryWrite => {},
                    }
                }
            }
            Err(())
        }
    }

    /// Returns the names of all the flags, in the order of their bits.
    pub fn all_serialized() -> (r: Vec<String>)
        ensures
            r@.len() == Self::spec_count(),
            forall|i: int| 0 <= i < r@.len() ==> #[trigger] r@[i]@ == Self::spec_from_index(i as u32).spec_name(),
    {
        let n = Self::count();
        let mut out: Vec<String> = Vec::new();
        let mut i: u32 = 0;
        while i < n
            invariant
                n == Self::spec_count(),
                i <= n,
                out@.len() == i,
                forall|k: int| 0 <= k < i ==> #[trigger] out@[k]@ == Self::spec_from_index(k as u32).spec_name(),
            decreases n - i,
        {
            let flag = Self::from_index(i);
            out.push(flag.to_string());
            i = i + 1;
        }
        out
    }
}

/// Distinct flags have distinct names, so parsing the name of a flag gives the flag back:
/// `Access::try_from(&x.to_string()) == Ok(x)`.
pub proof fn lemma_access_names_distinct(a: Access, b: Access)
    ensures
        a.spec_name() == b.spec_name() ==> a == b,
{
    broadcast use vstd::string::group_string_axioms;

    reveal_strlit("IndirectCommandRead");
    reveal_strlit("IndexRead");
    reveal_strlit("VertexAttributeRead");
    reveal_strlit("UniformRead");
    reveal_strlit("InputAttachmentRead");
    reveal_strlit("ShaderRead");
    reveal_strlit("ShaderWrite");
    reveal_strlit("ColorAttachmentRead");
    reveal_strlit("ColorAttachmentWrite");
    reveal_strlit("DepthStencilAttachmentRead");
    reveal_strlit("DepthStencilAttachmentWrite");
    reveal_strlit("TransferRead");
    reveal_strlit("TransferWrite");
    reveal_strlit("HostRead");
    reveal_strlit("HostWrite");
    reveal_strlit("MemoryRead");
    reveal_strlit("MemoryWrite");
    assert(Access::IndirectCommandRead.spec_name().len() == 19);
    assert(Access::IndexRead.spec_name().len() == 9);
    assert(Access::VertexAttributeRead.spec_name().len() == 19);
    assert(Access::UniformRead.spec_name().len() == 11);
    assert(Access::InputAttachmentRead.spec_name().len() == 19);
    assert(Access::ShaderRead.spec_name().len() == 10);
    assert(Access::ShaderWrite.spec_name().len() == 11);
    assert(Access::ColorAttachmentRead.spec_name().len() == 19);
    assert(Access::ColorAttachmentWrite.spec_name().len() == 20);
    assert(Access::DepthStencilAttachmentRead.spec_name().len() == 26);
    assert(Access::DepthStencilAttachmentWrite.spec_name().len() == 27);
    assert(Access::TransferRead.spec_name().len() == 12);
    assert(Access::TransferWrite.spec_name().len() == 13);
    assert(Access::HostRead.spec_name().len() == 8);
    assert(Access::HostWrite.spec_name().len() == 9);
    assert(Access::MemoryRead.spec_name().len() == 10);
    assert(Access::MemoryWrite.spec_name().len() == 11);
    assert(Access::IndirectCommandRead.spec_name()[2] == 'd');
    assert(Access::VertexAttributeRead.spec_name()[2] == 'r');
    assert(Access::InputAttachmentRead.spec_name()[2] == 'p');
    assert(Access::ColorAttachmentRead.spec_name()[2] == 'l');
    assert(Access::IndexRead.spec_name()[0] == 'I');
    assert(Access::HostWrite.spec_name()[0] == 'H');
    assert(Access::UniformRead.spec_name()[0] == 'U');
    assert(Access::ShaderWrite.spec_name()[0] == 'S');
    assert(Access::MemoryWrite.spec_name()[0] == 'M');
    assert(Access::ShaderRead.spec_name()[0] == 'S');
    assert(Access::MemoryRead.spec_name()[0] == 'M');
}


/// Each access kind's bit is its `VkAccessFlagBits` constant: `VK_ACCESS_INDIRECT_COMMAND_READ_BIT`
/// is 0x1, ..., `VK_ACCESS_COLOR_ATTACHMENT_READ_BIT` 0x80, `VK_ACCESS_COLOR_ATTACHMENT_WRITE_BIT`
/// 0x100, ..., `VK_ACCESS_MEMORY_WRITE_BIT` 0x10000.
pub proof fn lemma_access_vk_bits()
    ensures
        flag_bit(Access::IndirectCommandRead) == 0x1u32,
        flag_bit(Access::IndexRead) == 0x2u32,
        flag_bit(Access::VertexAttributeRead) == 0x4u32,
        flag_bit(Access::UniformRead) == 0x8u32,
        flag_bit(Access::InputAttachmentRead) == 0x10u32,
        flag_bit(Access::ShaderRead) == 0x20u32,
        flag_bit(Access::ShaderWrite) == 0x40u32,
        flag_bit(Access::ColorAttachmentRead) == 0x80u32,
        flag_bit(Access::ColorAttachmentWrite) == 0x100u32,
        flag_bit(Access::DepthStencilAttachmentRead) == 0x200u32,
        flag_bit(Access::DepthStencilAttachmentWrite) == 0x400u32,
        flag_bit(Access::TransferRead) == 0x800u32,
        flag_bit(Access::TransferWrite) == 0x1000u32,
        flag_bit(Access::HostRead) == 0x2000u32,
        flag_bit(Access::HostWrite) == 0x4000u32,
        flag_bit(Access::MemoryRead) == 0x8000u32,
        flag_bit(Access::MemoryWrite) == 0x10000u32,
{
    lemma_low_bits();
}

/// A raw access mask that holds the bit of each access of a set and no other access bit (what
/// [`Access::fold`] and the barriers' `access_masks` return) holds the `VkAccessFlagBits` constant
/// of an access exactly when the set holds that access: it is the OR of the Vulkan constants of
/// the accesses in the set.
pub proof fn lemma_access_mask_vk_bits(mask: u32, accesses: Set<Access>)
    requires
        forall|x: Access| #[trigger] has_bit(mask, x.spec_index()) == accesses.contains(x),
    ensures
        (mask & 0x1u32 != 0) == accesses.contains(Access::IndirectCommandRead),
        (mask & 0x2u32 != 0) == accesses.contains(Access::IndexRead),
        (mask & 0x4u32 != 0) == accesses.contains(Access::VertexAttributeRead),
        (mask & 0x8u32 != 0) == accesses.contains(Access::UniformRead),
        (mask & 0x10u32 != 0) == accesses.contains(Access::InputAttachmentRead),
        (mask & 0x20u32 != 0) == accesses.contains(Access::ShaderRead),
        (mask & 0x40u32 != 0) == accesses.contains(Access::ShaderWrite),
        (mask & 0x80u32 != 0) == accesses.contains(Access::ColorAttachmentRead),
        (mask & 0x100u32 != 0) == accesses.contains(Access::ColorAttachmentWrite),
        (mask & 0x200u32 != 0) == accesses.contains(Access::DepthStencilAttachmentRead),
        (mask & 0x400u32 != 0) == accesses.contains(Access::DepthStencilAttachmentWrite),
        (mask & 0x800u32 != 0) == accesses.contains(Access::TransferRead),
        (mask & 0x1000u32 != 0) == accesses.contains(Access::TransferWrite),
        (mask & 0x2000u32 != 0) == accesses.contains(Access::HostRead),
        (mask & 0x4000u32 != 0) == accesses.contains(Access::HostWrite),
        (mask & 0x8000u32 != 0) == accesses.contains(Access::MemoryRead),
        (mask & 0x10000u32 != 0) == accesses.contains(Access::MemoryWrite),
{
    lemma_access_vk_bits();
    assert(has_bit(mask, Access::IndirectCommandRead.spec_index()) == accesses.contains(Access::IndirectCommandRead));
    assert(has_bit(mask, Access::IndexRead.spec_index()) == accesses.contains(Access::IndexRead));
    assert(has_bit(mask, Access::VertexAttributeRead.spec_index()) == accesses.contains(Access::VertexAttributeRead));
    assert(has_bit(mask, Access::UniformRead.spec_index()) == accesses.contains(Access::UniformRead));
    assert(has_bit(mask, Access::InputAttachmentRead.spec_index()) == accesses.contains(Access::InputAttachmentRead));
    assert(has_bit(mask, Access::ShaderRead.spec_index()) == accesses.contains(Access::ShaderRead));
    assert(has_bit(mask, Access::ShaderWrite.spec_index()) == accesses.contains(Access::ShaderWrite));
    assert(has_bit(mask, Access::ColorAttachmentRead.spec_index()) == accesses.contains(Access::ColorAttachmentRead));
    assert(has_bit(mask, Access::ColorAttachmentWrite.spec_index()) == accesses.contains(Access::ColorAttachmentWrite));
    assert(has_bit(mask, Access::DepthStencilAttachmentRead.spec_index()) == accesses.contains(Access::DepthStencilAttachmentRead));
    assert(has_bit(mask, Access::DepthStencilAttachmentWrite.spec_index()) == accesses.contains(Access::DepthStencilAttachmentWrite));
    assert(has_bit(mask, Access::TransferRead.spec_index()) == accesses.contains(Access::TransferRead));
    assert(has_bit(mask, Access::TransferWrite.spec_index()) == accesses.contains(Access::TransferWrite));
    assert(has_bit(mask, Access::HostRead.spec_index()) == accesses.contains(Access::HostRead));
    assert(has_bit(mask, Access::HostWrite.spec_index()) == accesses.contains(Access::HostWrite));
    assert(has_bit(mask, Access::MemoryRead.spec_index()) == accesses.contains(Access::MemoryRead));
    assert(has_bit(mask, Access::MemoryWrite.spec_index()) == accesses.contains(Access::MemoryWrite));
}

} // verus!
